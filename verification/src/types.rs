use vstd::prelude::*;

use vstd::string::StringExecFns;

verus! {

/// How the source aspect ratio and the target box interact when resizing.
#[derive(Clone, Copy, Debug, PartialEq, Eq, Structural)]
pub enum ResizeMode {
    /// Scale to fit entirely within the target box, preserving aspect ratio.
    Fit,
    /// Scale to cover the target box, then crop the overflow symmetrically.
    Crop,
    /// Scale each axis independently to the target box, distorting if needed.
    Stretch,
    /// Scale preserving aspect ratio so the result covers the target box;
    /// one axis may exceed the box, and nothing is cropped.
    Cover,
}

/// The interpolation kernel used while resampling.
#[derive(Clone, Copy, Debug, PartialEq, Eq, Structural)]
pub enum SamplingFilter {
    Nearest,
    Linear,
    Cubic,
    Gaussian,
    Lanczos,
}

/// The output serialization format, selected by the requested filename
/// extension. JPEG carries its quality setting, already clamped.
#[derive(Clone, Copy, Debug, PartialEq, Eq, Structural)]
pub enum OutputFormat {
    Jpeg(u8),
    Png,
    Gif,
}

/// One request's resize parameters, as handed over by the HTTP layer.
#[derive(Debug)]
pub struct ImgResizeParameters {
    pub url: String,
    pub w: Option<u32>,
    pub h: Option<u32>,
    pub mode: Option<ResizeMode>,
    pub quality: Option<u8>,
    pub sampling: Option<String>,
    pub base64: bool,
}

/// Everything that can go wrong in the pipeline.
#[derive(Debug)]
pub enum ImgError {
    /// The requested filename has an unsupported or missing suffix.
    InvalidExtension,
    /// The source URL could not be fetched, or answered with a non-success
    /// status; the message carries the cause.
    Transport(String),
    /// Bytes were fetched but are not a parseable image.
    Decode(String),
    /// The resized raster could not be serialized to the requested format.
    Encode(String),
}

impl ImgError {
    /// The HTTP status this error is reported under: bad input as 400, a
    /// serialization failure as 500. A decode failure counts as bad input,
    /// reported together with fetch failures.
    pub open spec fn spec_status(&self) -> u16 {
        match self {
            ImgError::InvalidExtension => 400,
            ImgError::Transport(_) => 400,
            ImgError::Decode(_) => 400,
            ImgError::Encode(_) => 500,
        }
    }

    /// The HTTP status this error is reported under.
    pub fn status_code(&self) -> (r: u16)
        ensures
            r == self.spec_status(),
    {
        match self {
            ImgError::InvalidExtension => 400,
            ImgError::Transport(_) => 400,
            ImgError::Decode(_) => 400,
            ImgError::Encode(_) => 500,
        }
    }

    /// The response body reporting this error.
    pub open spec fn spec_message(&self) -> Seq<char> {
        match self {
            ImgError::InvalidExtension => "Invalid file extension"@,
            ImgError::Transport(m) => "Failed to fetch image: "@ + m@,
            ImgError::Decode(m) => "Failed to fetch image: "@ + m@,
            ImgError::Encode(m) => "Failed to resize image: "@ + m@,
        }
    }

    /// The response body reporting this error.
    pub fn message(&self) -> (r: String)
        ensures
            r@ == self.spec_message(),
    {
        match self {
            ImgError::InvalidExtension => String::from_str("Invalid file extension"),
            ImgError::Transport(m) => {
                let mut s = String::from_str("Failed to fetch image: ");
                s.append(m.as_str());
                s
            },
            ImgError::Decode(m) => {
                let mut s = String::from_str("Failed to fetch image: ");
                s.append(m.as_str());
                s
            },
            ImgError::Encode(m) => {
                let mut s = String::from_str("Failed to resize image: ");
                s.append(m.as_str());
                s
            },
        }
    }
}

/// The resize mode used when the request names none.
pub const DEFAULT_MODE: ResizeMode = ResizeMode::Crop;

/// The sampling filter used when the request names none.
pub const DEFAULT_FILTER: SamplingFilter = SamplingFilter::Linear;

/// The JPEG quality used when the request names none.
pub const DEFAULT_QUALITY: u8 = 100;

} // verus!

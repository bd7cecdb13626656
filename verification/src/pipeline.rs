use vstd::prelude::*;

use vstd::string::StringExecFns;

use crate::datauri::b64_of;
use crate::datauri::data_uri_prefix;
use crate::datauri::to_base64;
use crate::encode::to_buffer;
use crate::img::encoded_of;
use crate::img::fill_box_fits;
use crate::img::height_of;
use crate::img::img_height;
use crate::img::img_width;
use crate::img::width_of;
use crate::resize::cover_box_fits;
use crate::resize::filter_or_default;
use crate::resize::resize_image;
use crate::resize::spec_resized;
use crate::sampling::get_samling_filter;
use crate::sampling::lower_of;
use crate::sampling::spec_filter_of;
use crate::size::get_size;
use crate::size::spec_resolve;
use crate::types::ImgError;
use crate::types::ImgResizeParameters;
use crate::types::OutputFormat;
use crate::types::ResizeMode;
use crate::types::SamplingFilter;
use crate::types::DEFAULT_MODE;

verus! {

/// One rendered response body: raw encoded bytes, or the data-URI text the
/// request asked for instead.
#[derive(Debug)]
pub enum Body {
    Raw(Vec<u8>),
    Text(String),
}

/// The resize mode a request selects, Crop when it names none.
pub open spec fn spec_mode_of(m: Option<ResizeMode>) -> ResizeMode {
    match m {
        Option::Some(v) => v,
        Option::None => DEFAULT_MODE,
    }
}

/// The sampling filter a request selects, after case folding, Linear when it
/// names none or an unrecognized one.
pub open spec fn spec_render_filter(sampling: Option<String>) -> SamplingFilter {
    filter_or_default(
        match sampling {
            Option::Some(f) => spec_filter_of(lower_of(f@)),
            Option::None => Option::None,
        },
    )
}

/// The raster the pipeline hands to the encoder for this request: the source
/// resized to the resolved target box by the requested mode and filter.
pub open spec fn spec_render_resized(
    i: image::DynamicImage,
    params: ImgResizeParameters,
) -> image::DynamicImage {
    spec_resized(
        i,
        spec_resolve(img_width(i), img_height(i), params.w, params.h).0 as u32,
        spec_resolve(img_width(i), img_height(i), params.w, params.h).1 as u32,
        spec_render_filter(params.sampling),
        spec_mode_of(params.mode),
    )
}

/// Whether the resize policy's derived box fits the pixel-dimension type for
/// this request's resolved target box: the one machine limit a caller must
/// respect before rendering. Cover derives a box from the aspect comparison;
/// Crop first scales to cover the target box before cropping.
pub open spec fn render_safe(sw: u32, sh: u32, params: ImgResizeParameters) -> bool {
    (spec_mode_of(params.mode) == ResizeMode::Cover ==> cover_box_fits(
        sw as int,
        sh as int,
        spec_resolve(sw, sh, params.w, params.h).0,
        spec_resolve(sw, sh, params.w, params.h).1,
    )) && (spec_mode_of(params.mode) == ResizeMode::Crop ==> fill_box_fits(
        sw as int,
        sh as int,
        spec_resolve(sw, sh, params.w, params.h).0,
        spec_resolve(sw, sh, params.w, params.h).1,
    ))
}

/// Tests the machine limit `render` asks of a request: that the resize
/// policy's derived box fits the pixel-dimension type for this raster.
pub fn render_within_limits(image: &image::DynamicImage, params: &ImgResizeParameters) -> (r:
    bool)
    requires
        1 <= img_width(*image),
        1 <= img_height(*image),
    ensures
        r == render_safe(img_width(*image), img_height(*image), *params),
{
    let sw = width_of(image);
    let sh = height_of(image);
    let size = get_size(params.w, params.h, sw, sh);
    let mode = match params.mode {
        Option::Some(m) => m,
        Option::None => DEFAULT_MODE,
    };
    proof {
        assert((size.0 as u64) * (sh as u64) <= 0xffff_ffffu64 * 0xffff_ffffu64)
            by (nonlinear_arith)
            requires
                size.0 <= 0xffff_ffffu64,
                sh <= 0xffff_ffffu64,
        ;
        assert((sw as u64) * (size.1 as u64) <= 0xffff_ffffu64 * 0xffff_ffffu64)
            by (nonlinear_arith)
            requires
                sw <= 0xffff_ffffu64,
                size.1 <= 0xffff_ffffu64,
        ;
        assert((sh as u64) * (size.0 as u64) <= 0xffff_ffffu64 * 0xffff_ffffu64)
            by (nonlinear_arith)
            requires
                sh <= 0xffff_ffffu64,
                size.0 <= 0xffff_ffffu64,
        ;
        assert(0xffff_ffffu64 * (sh as u64) <= 0xffff_ffffu64 * 0xffff_ffffu64)
            by (nonlinear_arith)
            requires
                sh <= 0xffff_ffffu64,
        ;
        assert(0xffff_ffffu64 * (sw as u64) <= 0xffff_ffffu64 * 0xffff_ffffu64)
            by (nonlinear_arith)
            requires
                sw <= 0xffff_ffffu64,
        ;
    }
    match mode {
        ResizeMode::Cover => {
            let a: u64 = (size.0 as u64) * (sh as u64);
            let b: u64 = (sw as u64) * (size.1 as u64);
            if a > b {
                a / (sw as u64) <= 0xffff_ffffu64
            } else {
                proof {
                    assert((sw as int) * (size.1 as int) == (size.1 as int) * (sw as int))
                        by (nonlinear_arith);
                }
                b / (sh as u64) <= 0xffff_ffffu64
            }
        },
        ResizeMode::Crop => {
            let wide: u64 = (sw as u64) * (size.1 as u64);
            let tall: u64 = (sh as u64) * (size.0 as u64);
            wide <= 0xffff_ffffu64 * (sh as u64) && tall <= 0xffff_ffffu64 * (sw as u64)
        },
        ResizeMode::Fit => true,
        ResizeMode::Stretch => true,
    }
}

/// Runs the pipeline over a fetched raster: resolves the target box, resizes
/// by the requested mode and filter, serializes into the selected format, and
/// wraps the bytes as a data URI when the request asks for text. The outcome
/// is the named outcome of encoding the resized raster: exactly its bytes
/// raw, or exactly their data-URI text, and an encode error exactly when
/// that encoding fails or the data-URI length guard trips.
pub fn render(
    image: image::DynamicImage,
    format: OutputFormat,
    content_type: &str,
    params: &ImgResizeParameters,
) -> (r: Result<Body, ImgError>)
    requires
        1 <= img_width(image),
        1 <= img_height(image),
        render_safe(img_width(image), img_height(image), *params),
    ensures
        ({
            let enc = encoded_of(spec_render_resized(image, *params), format);
            match r {
                Result::Ok(body) => enc is Ok && match body {
                    Body::Raw(b) => !params.base64 && b@ == enc->Ok_0,
                    Body::Text(s) => params.base64 && enc->Ok_0.len() <= usize::MAX as int / 4
                        && s@ == data_uri_prefix(content_type@) + b64_of(enc->Ok_0) && ((forall|
                        i: int,
                    |
                        0 <= i < content_type@.len() ==> content_type@[i] != '=') ==> (forall|
                        i: int,
                    |
                        0 <= i < s@.len() ==> s@[i] != '=')),
                },
                Result::Err(e) => e is Encode && (enc is Err || (params.base64 && enc->Ok_0.len()
                    > usize::MAX as int / 4)),
            }
        }),
{
    let sw = width_of(&image);
    let sh = height_of(&image);
    let size = get_size(params.w, params.h, sw, sh);
    let mode = match params.mode {
        Option::Some(m) => m,
        Option::None => DEFAULT_MODE,
    };
    let filter = get_samling_filter(&params.sampling);
    let resized = resize_image(image, size.0, size.1, filter, mode);
    proof {
        assert(resized == spec_render_resized(image, *params));
    }
    let buffer = match to_buffer(resized, format) {
        Result::Ok(b) => b,
        Result::Err(e) => {
            return Result::Err(e);
        },
    };
    if params.base64 {
        if buffer.len() <= usize::MAX / 4 {
            let uri = to_base64(&buffer, content_type);
            Result::Ok(Body::Text(uri))
        } else {
            Result::Err(ImgError::Encode(
                String::from_str("encoded image too large for a data URI"),
            ))
        }
    } else {
        Result::Ok(Body::Raw(buffer))
    }
}

/// The content type a successful reply is served under: text/plain for
/// data-URI text, the image's own content type for raw bytes.
pub fn response_content_type<'a>(body: &Body, image_content_type: &'a str) -> (r: &'a str)
    ensures
        body is Text ==> r@ == "text/plain"@,
        body is Raw ==> r@ == image_content_type@,
{
    match body {
        Body::Text(_) => "text/plain",
        Body::Raw(_) => image_content_type,
    }
}

} // verus!

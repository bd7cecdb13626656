use vstd::prelude::*;

use vstd::string::StringExecFns;

use crate::img::decode_bytes;
use crate::img::decoded_of;
use crate::img::height_of;
use crate::img::img_height;
use crate::img::img_width;
use crate::img::width_of;
use crate::types::ImgError;

verus! {

/// Whether an HTTP status is a success (2xx); the test the fetcher applies
/// before it hands bytes to the decoder.
pub open spec fn spec_status_ok(code: u16) -> bool {
    200 <= code < 300
}

/// Whether an HTTP status is a success (2xx).
pub fn status_ok(code: u16) -> (r: bool)
    ensures
        r == spec_status_ok(code),
{
    200 <= code && code < 300
}

/// Decodes fetched bytes into a raster. The outcome is the named outcome of
/// the image crate's decoder: success exactly when the bytes decode as a
/// supported image with nonzero dimensions, and then exactly the decoded
/// raster, which every later stage relies on; anything else is a decode
/// error.
pub fn decode_image(bytes: &Vec<u8>) -> (r: Result<image::DynamicImage, ImgError>)
    ensures
        r is Ok == (decoded_of(bytes@) is Ok && 1 <= img_width(decoded_of(bytes@)->Ok_0) && 1
            <= img_height(decoded_of(bytes@)->Ok_0)),
        match r {
            Result::Ok(i) => i == decoded_of(bytes@)->Ok_0,
            Result::Err(e) => e is Decode,
        },
{
    match decode_bytes(bytes) {
        Result::Ok(i) => {
            let w = width_of(&i);
            let h = height_of(&i);
            if 1 <= w && 1 <= h {
                Result::Ok(i)
            } else {
                Result::Err(ImgError::Decode(String::from_str("image has no pixels")))
            }
        },
        Result::Err(m) => Result::Err(ImgError::Decode(m)),
    }
}

} // verus!

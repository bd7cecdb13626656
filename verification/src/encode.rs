use vstd::prelude::*;

use crate::img::encode_to_vec;
use crate::img::encoded_of;
use crate::types::ImgError;
use crate::types::OutputFormat;

verus! {

/// Serializes the raster into the requested output format, into an in-memory
/// buffer. The outcome is the named outcome of the image crate's encoder:
/// exactly its bytes on success, and exactly its cause, as an encode error,
/// when serialization fails.
pub fn to_buffer(image: image::DynamicImage, format: OutputFormat) -> (r: Result<
    Vec<u8>,
    ImgError,
>)
    ensures
        r is Ok == encoded_of(image, format) is Ok,
        r is Ok ==> r->Ok_0@ == encoded_of(image, format)->Ok_0,
        r is Err ==> r->Err_0 is Encode && r->Err_0->Encode_0@ == encoded_of(
            image,
            format,
        )->Err_0,
{
    match encode_to_vec(&image, format) {
        Result::Ok(v) => Result::Ok(v),
        Result::Err(m) => Result::Err(ImgError::Encode(m)),
    }
}

} // verus!

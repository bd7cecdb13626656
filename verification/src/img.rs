use vstd::prelude::*;

use crate::types::OutputFormat;
use crate::types::SamplingFilter;

verus! {

#[verifier::external_type_specification]
#[verifier::external_body]
pub struct ExDynamicImage(image::DynamicImage);

/// The pixel width a decoded raster holds; a function of the raster alone.
pub uninterp spec fn img_width(i: image::DynamicImage) -> u32;

/// The pixel height a decoded raster holds; a function of the raster alone.
pub uninterp spec fn img_height(i: image::DynamicImage) -> u32;

/// What image::load_from_memory returns for these bytes: the decoded raster,
/// or the decode error's message; a function of the bytes alone.
pub uninterp spec fn decoded_of(bytes: Seq<u8>) -> Result<image::DynamicImage, Seq<char>>;

/// What image::DynamicImage::resize returns for these arguments; a function
/// of them alone.
pub uninterp spec fn fit_of(
    i: image::DynamicImage,
    w: u32,
    h: u32,
    f: SamplingFilter,
) -> image::DynamicImage;

/// What image::DynamicImage::resize_to_fill returns for these arguments; a
/// function of them alone.
pub uninterp spec fn fill_of(
    i: image::DynamicImage,
    w: u32,
    h: u32,
    f: SamplingFilter,
) -> image::DynamicImage;

/// What image::DynamicImage::resize_exact returns for these arguments; a
/// function of them alone.
pub uninterp spec fn stretch_of(
    i: image::DynamicImage,
    w: u32,
    h: u32,
    f: SamplingFilter,
) -> image::DynamicImage;

/// What image::DynamicImage::write_to returns for this raster and format:
/// the encoded bytes, or the encode error's message; a function of the two
/// alone.
pub uninterp spec fn encoded_of(i: image::DynamicImage, format: OutputFormat) -> Result<
    Seq<u8>,
    Seq<char>,
>;

/// Whether the box Crop first scales into (covering the target box before
/// cropping) fits the pixel dimension type on both axes; a machine limit.
/// The covering scale factor is the larger of `tw / sw` and `th / sh`, so
/// the scaled axes stay within `u32` exactly when these cross products do.
pub open spec fn fill_box_fits(sw: int, sh: int, tw: int, th: int) -> bool {
    sw * th <= u32::MAX * sh && sh * tw <= u32::MAX * sw
}

/// Relies on image::DynamicImage::width: the raster's pixel width.
#[verifier::external_body]
pub(crate) fn width_of(i: &image::DynamicImage) -> (r: u32)
    ensures
        r == img_width(*i),
{
    i.width()
}

/// Relies on image::DynamicImage::height: the raster's pixel height.
#[verifier::external_body]
pub(crate) fn height_of(i: &image::DynamicImage) -> (r: u32)
    ensures
        r == img_height(*i),
{
    i.height()
}

/// Relies on image::load_from_memory: decodes bytes into a raster, guessing
/// the format, or reports why they are not a parseable image; the outcome is
/// a function of the bytes alone.
#[verifier::external_body]
pub(crate) fn decode_bytes(bytes: &Vec<u8>) -> (r: Result<image::DynamicImage, String>)
    ensures
        r is Ok == decoded_of(bytes@) is Ok,
        r is Ok ==> r->Ok_0 == decoded_of(bytes@)->Ok_0,
        r is Err ==> r->Err_0@ == decoded_of(bytes@)->Err_0,
{
    match image::load_from_memory(bytes.as_slice()) {
        Ok(i) => Ok(i),
        Err(e) => Err(format!("{}", e)),
    }
}

/// Relies on image::DynamicImage::resize: scales preserving aspect ratio to
/// the largest size that fits within the given box, so both result dimensions
/// are within the box and at least one touches it; neither is ever zero.
/// Linear stands for the crate's Triangle, Cubic for its CatmullRom, Lanczos
/// for its Lanczos3.
#[verifier::external_body]
pub(crate) fn resize_fit(i: &image::DynamicImage, w: u32, h: u32, f: SamplingFilter) -> (r:
    image::DynamicImage)
    requires
        1 <= img_width(*i),
        1 <= img_height(*i),
        1 <= w,
        1 <= h,
    ensures
        r == fit_of(*i, w, h, f),
        img_width(r) <= w,
        img_height(r) <= h,
        img_width(r) == w || img_height(r) == h,
        1 <= img_width(r),
        1 <= img_height(r),
{
    let ft = match f {
        SamplingFilter::Nearest => image::imageops::FilterType::Nearest,
        SamplingFilter::Linear => image::imageops::FilterType::Triangle,
        SamplingFilter::Cubic => image::imageops::FilterType::CatmullRom,
        SamplingFilter::Gaussian => image::imageops::FilterType::Gaussian,
        SamplingFilter::Lanczos => image::imageops::FilterType::Lanczos3,
    };
    i.resize(w, h, ft)
}

/// Relies on image::DynamicImage::resize_to_fill: scales preserving aspect
/// ratio to cover the given box, then crops the overflow symmetrically, so
/// the result is exactly the box. The covering box must fit the pixel
/// dimension type, or the scale is clamped and the crop falls short.
#[verifier::external_body]
pub(crate) fn resize_fill(i: &image::DynamicImage, w: u32, h: u32, f: SamplingFilter) -> (r:
    image::DynamicImage)
    requires
        1 <= img_width(*i),
        1 <= img_height(*i),
        1 <= w,
        1 <= h,
        fill_box_fits(img_width(*i) as int, img_height(*i) as int, w as int, h as int),
    ensures
        r == fill_of(*i, w, h, f),
        img_width(r) == w,
        img_height(r) == h,
{
    let ft = match f {
        SamplingFilter::Nearest => image::imageops::FilterType::Nearest,
        SamplingFilter::Linear => image::imageops::FilterType::Triangle,
        SamplingFilter::Cubic => image::imageops::FilterType::CatmullRom,
        SamplingFilter::Gaussian => image::imageops::FilterType::Gaussian,
        SamplingFilter::Lanczos => image::imageops::FilterType::Lanczos3,
    };
    i.resize_to_fill(w, h, ft)
}

/// Relies on image::DynamicImage::resize_exact: scales each axis
/// independently, so the result is exactly the box.
#[verifier::external_body]
pub(crate) fn resize_stretch(i: &image::DynamicImage, w: u32, h: u32, f: SamplingFilter) -> (r:
    image::DynamicImage)
    requires
        1 <= img_width(*i),
        1 <= img_height(*i),
        1 <= w,
        1 <= h,
    ensures
        r == stretch_of(*i, w, h, f),
        img_width(r) == w,
        img_height(r) == h,
{
    let ft = match f {
        SamplingFilter::Nearest => image::imageops::FilterType::Nearest,
        SamplingFilter::Linear => image::imageops::FilterType::Triangle,
        SamplingFilter::Cubic => image::imageops::FilterType::CatmullRom,
        SamplingFilter::Gaussian => image::imageops::FilterType::Gaussian,
        SamplingFilter::Lanczos => image::imageops::FilterType::Lanczos3,
    };
    i.resize_exact(w, h, ft)
}

/// Relies on image::DynamicImage::write_to with an in-memory cursor: encodes
/// the raster into the requested format, or reports why it cannot be
/// serialized; the outcome is a function of the raster and format alone.
#[verifier::external_body]
pub(crate) fn encode_to_vec(i: &image::DynamicImage, format: OutputFormat) -> (r: Result<
    Vec<u8>,
    String,
>)
    ensures
        r is Ok == encoded_of(*i, format) is Ok,
        r is Ok ==> r->Ok_0@ == encoded_of(*i, format)->Ok_0,
        r is Err ==> r->Err_0@ == encoded_of(*i, format)->Err_0,
{
    let fmt = match format {
        OutputFormat::Jpeg(q) => image::ImageOutputFormat::Jpeg(q),
        OutputFormat::Png => image::ImageOutputFormat::Png,
        OutputFormat::Gif => image::ImageOutputFormat::Gif,
    };
    let mut cursor = std::io::Cursor::new(Vec::new());
    match i.write_to(&mut cursor, fmt) {
        Ok(()) => Ok(cursor.into_inner()),
        Err(e) => Err(format!("{}", e)),
    }
}

} // verus!

use vstd::prelude::*;

use vstd::arithmetic::div_mod::lemma_div_is_ordered;
use vstd::arithmetic::div_mod::lemma_fundamental_div_mod_converse;

use crate::img::fill_box_fits;
use crate::img::fill_of;
use crate::img::fit_of;
use crate::img::height_of;
use crate::img::img_height;
use crate::img::img_width;
use crate::img::resize_fill;
use crate::img::resize_fit;
use crate::img::resize_stretch;
use crate::img::stretch_of;
use crate::img::width_of;
use crate::types::ResizeMode;
use crate::types::SamplingFilter;
use crate::types::DEFAULT_FILTER;

verus! {

/// The aspect comparison that picks Cover's fixed axis: the width is fixed
/// exactly when the target box is wider, relative to its height, than the
/// source is.
pub open spec fn cover_fixes_width(sw: int, sh: int, tw: int, th: int) -> bool {
    tw * sh > sw * th
}

/// The width of the box Cover scales to: the target width when the aspect
/// comparison fixes the width, else derived from the target height by the
/// source aspect ratio.
pub open spec fn cover_width(sw: int, sh: int, tw: int, th: int) -> int {
    if cover_fixes_width(sw, sh, tw, th) {
        tw
    } else {
        th * sw / sh
    }
}

/// The height of the box Cover scales to; symmetric to `cover_width`.
pub open spec fn cover_height(sw: int, sh: int, tw: int, th: int) -> int {
    if cover_fixes_width(sw, sh, tw, th) {
        tw * sh / sw
    } else {
        th
    }
}

/// Whether Cover's derived box fits the pixel-dimension type at all; a
/// machine limit, not a policy.
pub open spec fn cover_box_fits(sw: int, sh: int, tw: int, th: int) -> bool {
    cover_width(sw, sh, tw, th) <= u32::MAX && cover_height(sw, sh, tw, th) <= u32::MAX
}

/// Cover's derived box matches the target exactly on the axis the aspect
/// comparison fixes, and is at least the target on the other axis: the box
/// covers the whole target box.
pub proof fn lemma_cover_box_covers(sw: int, sh: int, tw: int, th: int)
    requires
        1 <= sw,
        1 <= sh,
        1 <= tw,
        1 <= th,
    ensures
        cover_fixes_width(sw, sh, tw, th) ==> cover_width(sw, sh, tw, th) == tw
            && cover_height(sw, sh, tw, th) >= th,
        !cover_fixes_width(sw, sh, tw, th) ==> cover_height(sw, sh, tw, th) == th
            && cover_width(sw, sh, tw, th) >= tw,
        1 <= cover_width(sw, sh, tw, th),
        1 <= cover_height(sw, sh, tw, th),
{
    if cover_fixes_width(sw, sh, tw, th) {
        lemma_fundamental_div_mod_converse(th * sw, sw, th, 0);
        lemma_div_is_ordered(th * sw, tw * sh, sw);
    } else {
        lemma_fundamental_div_mod_converse(tw * sh, sh, tw, 0);
        lemma_div_is_ordered(tw * sh, th * sw, sh);
    }
}

/// The sampling filter the resizer applies: the selected one, Linear when
/// none is selected.
pub open spec fn filter_or_default(f: Option<SamplingFilter>) -> SamplingFilter {
    match f {
        Option::Some(v) => v,
        Option::None => DEFAULT_FILTER,
    }
}

/// The raster each policy hands back, over the named results of the image
/// crate's resize operations: Fit scales into the target box, Crop scales to
/// cover it and crops, Stretch scales each axis to it, and Cover scales to
/// its derived box exactly.
pub open spec fn spec_resized(
    i: image::DynamicImage,
    tw: u32,
    th: u32,
    f: SamplingFilter,
    mode: ResizeMode,
) -> image::DynamicImage {
    match mode {
        ResizeMode::Fit => fit_of(i, tw, th, f),
        ResizeMode::Crop => fill_of(i, tw, th, f),
        ResizeMode::Stretch => stretch_of(i, tw, th, f),
        ResizeMode::Cover => stretch_of(
            i,
            cover_width(img_width(i) as int, img_height(i) as int, tw as int, th as int) as u32,
            cover_height(img_width(i) as int, img_height(i) as int, tw as int, th as int) as u32,
            f,
        ),
    }
}

/// What each policy guarantees of the result's dimensions, given the source
/// dimensions and the target box. Fit stays within the box and touches it on
/// at least one axis; Crop and Stretch hit the box exactly; Cover hits its
/// derived box exactly, which matches the target on the aspect-fixed axis
/// and is at least the target on the other, with nothing cropped.
pub open spec fn resize_post(
    mode: ResizeMode,
    sw: int,
    sh: int,
    tw: int,
    th: int,
    rw: int,
    rh: int,
) -> bool {
    match mode {
        ResizeMode::Fit => rw <= tw && rh <= th && (rw == tw || rh == th) && 1 <= rw && 1 <= rh,
        ResizeMode::Crop => rw == tw && rh == th,
        ResizeMode::Stretch => rw == tw && rh == th,
        ResizeMode::Cover => rw == cover_width(sw, sh, tw, th) && rh == cover_height(
            sw,
            sh,
            tw,
            th,
        ) && (cover_fixes_width(sw, sh, tw, th) ==> rw == tw && rh >= th) && (!cover_fixes_width(
            sw,
            sh,
            tw,
            th,
        ) ==> rh == th && rw >= tw),
    }
}

/// Applies one of the four resize policies to the raster, using the selected
/// sampling filter, Linear when none is selected. The result is exactly the
/// named outcome of the policy's resize operation (`spec_resized`), and its
/// dimensions obey `resize_post` for the chosen mode.
pub fn resize_image(
    image: image::DynamicImage,
    width: u32,
    height: u32,
    filter: Option<SamplingFilter>,
    mode: ResizeMode,
) -> (r: image::DynamicImage)
    requires
        1 <= img_width(image),
        1 <= img_height(image),
        1 <= width,
        1 <= height,
        mode == ResizeMode::Cover ==> cover_box_fits(
            img_width(image) as int,
            img_height(image) as int,
            width as int,
            height as int,
        ),
        mode == ResizeMode::Crop ==> fill_box_fits(
            img_width(image) as int,
            img_height(image) as int,
            width as int,
            height as int,
        ),
    ensures
        r == spec_resized(image, width, height, filter_or_default(filter), mode),
        resize_post(
            mode,
            img_width(image) as int,
            img_height(image) as int,
            width as int,
            height as int,
            img_width(r) as int,
            img_height(r) as int,
        ),
{
    let f = match filter {
        Option::Some(v) => v,
        Option::None => DEFAULT_FILTER,
    };
    match mode {
        ResizeMode::Fit => resize_fit(&image, width, height, f),
        ResizeMode::Crop => resize_fill(&image, width, height, f),
        ResizeMode::Stretch => resize_stretch(&image, width, height, f),
        ResizeMode::Cover => {
            let sw = width_of(&image);
            let sh = height_of(&image);
            proof {
                assert((width as u64) * (sh as u64) <= 0xffff_ffffu64 * 0xffff_ffffu64)
                    by (nonlinear_arith)
                    requires
                        width <= 0xffff_ffffu64,
                        sh <= 0xffff_ffffu64,
                ;
                assert((sw as u64) * (height as u64) <= 0xffff_ffffu64 * 0xffff_ffffu64)
                    by (nonlinear_arith)
                    requires
                        sw <= 0xffff_ffffu64,
                        height <= 0xffff_ffffu64,
                ;
                lemma_cover_box_covers(sw as int, sh as int, width as int, height as int);
            }
            let a: u64 = (width as u64) * (sh as u64);
            let b: u64 = (sw as u64) * (height as u64);
            if a > b {
                let dh: u64 = a / (sw as u64);
                resize_stretch(&image, width, dh as u32, f)
            } else {
                proof {
                    assert((sw as int) * (height as int) == (height as int) * (sw as int))
                        by (nonlinear_arith);
                }
                let dw: u64 = b / (sh as u64);
                resize_stretch(&image, dw as u32, height, f)
            }
        },
    }
}

} // verus!

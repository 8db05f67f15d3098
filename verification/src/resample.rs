//! Resampling of RGBA pixel data, done by the `image` crate.
//!
//! Nothing in this file is proved: the contract below is taken from the
//! crate's source and believed as it stands.

use vstd::prelude::*;
use crate::dimensions::pixel_count;

verus! {

/// Longest side, in pixels, of an image that is handed to the resampler.
pub const MAX_SIDE: u32 = 65_535;

/// Length in bytes of the RGBA data of an image of the given size.
pub open spec fn rgba_len(dim: (u32, u32)) -> nat {
    4 * pixel_count(dim)
}

/// Sizes between which the resampler is known to work: no side is zero or
/// longer than `MAX_SIDE`, and both the result and the intermediate image it
/// builds (sixteen bytes a pixel, as wide as the source and as high as the
/// target) can be allocated.
pub open spec fn can_resample(source: (u32, u32), target: (u32, u32)) -> bool {
    &&& 1 <= source.0 <= MAX_SIDE
    &&& 1 <= source.1 <= MAX_SIDE
    &&& 1 <= target.0 <= MAX_SIDE
    &&& 1 <= target.1 <= MAX_SIDE
    &&& 16 * pixel_count((source.0, target.1)) <= isize::MAX
    &&& rgba_len(target) <= isize::MAX
}

/// The RGBA data that `image::imageops::resize` with `FilterType::Triangle`
/// gives for an image of `width` by `height` with the data `pixels`, asked
/// for `target_width` by `target_height`.
pub uninterp spec fn resampled(
    pixels: Seq<u8>,
    width: u32,
    height: u32,
    target_width: u32,
    target_height: u32,
) -> Seq<u8>;

/// Calls `image::imageops::resize` with the triangle filter on an
/// `image::RgbaImage` made of `pixels` by `ImageBuffer::from_raw`.
///
/// Claimed of it: `from_raw` accepts data of exactly the length of the image,
/// so a result comes back; the result is the data of an image of the target
/// size, four bytes a pixel; and it depends on the arguments alone.
#[verifier::external_body]
pub(crate) fn resize_triangle(
    pixels: &Vec<u8>,
    width: u32,
    height: u32,
    target_width: u32,
    target_height: u32,
) -> (resized: Option<Vec<u8>>)
    requires
        pixels.len() == rgba_len((width, height)),
        can_resample((width, height), (target_width, target_height)),
    ensures
        resized is Some,
        resized matches Some(out) ==> out@ == resampled(
            pixels@,
            width,
            height,
            target_width,
            target_height,
        ),
        resized matches Some(out) ==> out.len() == rgba_len((target_width, target_height)),
{
    let source = image::RgbaImage::from_raw(width, height, pixels.clone())?;
    let filter = image::imageops::FilterType::Triangle;
    Some(image::imageops::resize(&source, target_width, target_height, filter).into_raw())
}

} // verus!

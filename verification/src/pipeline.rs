//! The whole combination, from two decoded images to the filled output image.

use vstd::prelude::*;
use crate::dimensions::smallest_dimension;
use crate::errors::ImageDataErrors;
use crate::format::ImageFormat;
use crate::interleave::interleaved;
use crate::output::{FloatingImage, FloatingImageView, BUFFER_CAPACITY};
use crate::raster::{can_standardise_size, combine_images, standardise_size, RasterImage, RasterView};
use crate::resample::rgba_len;

verus! {

/// The size that two images are combined at: the smaller of their sizes.
pub open spec fn target_size(image1: RasterView, image2: RasterView) -> (u32, u32) {
    smallest_dimension(image1.dims(), image2.dims())
}

/// The bytes of the combined image: both images brought to the target size,
/// then merged pixel by pixel.
pub open spec fn merged_pixels(image1: RasterView, image2: RasterView) -> Seq<u8> {
    let target = target_size(image1, image2);
    interleaved(image1.standardised(target).pixels, image2.standardised(target).pixels)
}

/// Combines two decoded images into an output image called `name`.
///
/// Images of different formats are refused with `DifferentImageFormats`
/// whatever else holds of them. Otherwise both are brought to the smaller of
/// their sizes and merged; the result is refused with `BufferTooSmall` if its
/// four bytes a pixel exceed `BUFFER_CAPACITY`, and else stored in an output
/// image of the target size.
pub fn merge_images(
    image1: RasterImage,
    format1: ImageFormat,
    image2: RasterImage,
    format2: ImageFormat,
    name: String,
) -> (result: Result<FloatingImage, ImageDataErrors>)
    requires
        format1 == format2 ==> can_standardise_size(image1@, image2@),
    ensures
        format1 != format2 ==> result == Err::<FloatingImage, ImageDataErrors>(
            ImageDataErrors::DifferentImageFormats,
        ),
        format1 == format2 && rgba_len(target_size(image1@, image2@)) > BUFFER_CAPACITY ==> result
            == Err::<FloatingImage, ImageDataErrors>(ImageDataErrors::BufferTooSmall),
        format1 == format2 && rgba_len(target_size(image1@, image2@)) <= BUFFER_CAPACITY ==> (
        result matches Ok(output) && output@ == (FloatingImageView {
            width: target_size(image1@, image2@).0,
            height: target_size(image1@, image2@).1,
            data: merged_pixels(image1@, image2@),
            name: name@,
            capacity: BUFFER_CAPACITY as nat,
        })),
        result matches Ok(output) ==> output@.data.len() == rgba_len(
            target_size(image1@, image2@),
        ),
{
    if format1 != format2 {
        return Err(ImageDataErrors::DifferentImageFormats);
    }
    let (sized1, sized2) = standardise_size(image1, image2);
    let (width, height) = sized1.dimensions();
    let mut output = FloatingImage::new(width, height, name);
    let combined_data = combine_images(sized1, sized2);
    match output.set_data(combined_data) {
        Ok(()) => Ok(output),
        Err(error) => Err(error),
    }
}

} // verus!

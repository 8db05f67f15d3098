//! Decoded images as RGBA data, and bringing two of them to one size.

use vstd::prelude::*;
use crate::dimensions::{get_smallest_dimension, pixel_count, smallest_dimension};
use crate::interleave::{alternate_pixels, interleaved};
use crate::resample::{can_resample, resampled, resize_triangle, rgba_len, MAX_SIDE};

verus! {

/// A decoded image: its size and its pixels as RGBA bytes, row by row.
pub struct RasterImage {
    width: u32,
    height: u32,
    pixels: Vec<u8>,
}

/// What a `RasterImage` holds, as mathematical values.
pub struct RasterView {
    pub width: u32,
    pub height: u32,
    pub pixels: Seq<u8>,
}

impl RasterView {
    /// The size as a `(width, height)` pair.
    pub open spec fn dims(self) -> (u32, u32) {
        (self.width, self.height)
    }

    /// The data holds exactly four bytes for each pixel.
    pub open spec fn well_formed(self) -> bool {
        self.pixels.len() == rgba_len(self.dims())
    }

    /// The image brought to the size `target`: itself where it has that size
    /// already, else resampled to it.
    pub open spec fn standardised(self, target: (u32, u32)) -> RasterView {
        if self.dims() == target {
            self
        } else {
            RasterView {
                width: target.0,
                height: target.1,
                pixels: resampled(self.pixels, self.width, self.height, target.0, target.1),
            }
        }
    }

    /// The image can be brought to the size `target` without leaving the
    /// sizes that the resampler takes.
    pub open spec fn can_standardise(self, target: (u32, u32)) -> bool {
        self.dims() != target ==> can_resample(self.dims(), target)
    }
}

impl View for RasterImage {
    type V = RasterView;

    closed spec fn view(&self) -> RasterView {
        RasterView { width: self.width, height: self.height, pixels: self.pixels@ }
    }
}

proof fn lemma_rgba_len_fits(dim: (u32, u32))
    ensures
        rgba_len(dim) <= 4 * (0xffff_ffff * 0xffff_ffff),
        rgba_len(dim) == 4 * (dim.0 as nat) * (dim.1 as nat),
{
    assert((dim.0 as nat) * (dim.1 as nat) <= 0xffff_ffff * 0xffff_ffff) by (nonlinear_arith)
        requires
            dim.0 <= 0xffff_ffff,
            dim.1 <= 0xffff_ffff,
    ;
    assert(4 * ((dim.0 as nat) * (dim.1 as nat)) == 4 * (dim.0 as nat) * (dim.1 as nat))
        by (nonlinear_arith);
}

/// Decides whether the resampler takes an image of the size `source` to the
/// size `target`.
pub fn resample_supported(source: (u32, u32), target: (u32, u32)) -> (supported: bool)
    ensures
        supported == can_resample(source, target),
{
    if source.0 < 1 || source.0 > MAX_SIDE || source.1 < 1 || source.1 > MAX_SIDE {
        return false;
    }
    if target.0 < 1 || target.0 > MAX_SIDE || target.1 < 1 || target.1 > MAX_SIDE {
        return false;
    }
    proof {
        lemma_rgba_len_fits((source.0, target.1));
        lemma_rgba_len_fits(target);
        assert((source.0 as nat) * (target.1 as nat) <= 65_535 * 65_535) by (nonlinear_arith)
            requires
                source.0 <= 65_535,
                target.1 <= 65_535,
        ;
        assert((target.0 as nat) * (target.1 as nat) <= 65_535 * 65_535) by (nonlinear_arith)
            requires
                target.0 <= 65_535,
                target.1 <= 65_535,
        ;
    }
    let limit: u64 = isize::MAX as u64;
    let between: u64 = 16 * ((source.0 as u64) * (target.1 as u64));
    let result: u64 = 4 * ((target.0 as u64) * (target.1 as u64));
    between <= limit && result <= limit
}

impl RasterImage {
    #[verifier::type_invariant]
    spec fn whole_pixels(self) -> bool {
        self.pixels.len() == rgba_len((self.width, self.height))
    }

    /// An image of `width` by `height` with the RGBA data `pixels`, if the
    /// data has exactly four bytes for each pixel; `None` otherwise.
    pub fn new(width: u32, height: u32, pixels: Vec<u8>) -> (image: Option<RasterImage>)
        ensures
            image is Some <==> pixels.len() == rgba_len((width, height)),
            image matches Some(made) ==> made@ == (RasterView { width, height, pixels: pixels@ }),
    {
        proof {
            lemma_rgba_len_fits((width, height));
        }
        let count: u128 = (width as u128) * (height as u128);
        let needed: u128 = 4 * count;
        if pixels.len() as u128 == needed {
            Some(RasterImage { width, height, pixels })
        } else {
            None
        }
    }

    /// The image's `(width, height)`.
    pub fn dimensions(&self) -> (dim: (u32, u32))
        ensures
            dim == self@.dims(),
            self@.well_formed(),
    {
        proof {
            use_type_invariant(self);
        }
        (self.width, self.height)
    }

    /// The image's width in pixels.
    pub fn width(&self) -> (width: u32)
        ensures
            width == self@.width,
    {
        self.width
    }

    /// The image's height in pixels.
    pub fn height(&self) -> (height: u32)
        ensures
            height == self@.height,
    {
        self.height
    }

    /// The image's RGBA data, four bytes a pixel.
    pub fn into_vec(self) -> (pixels: Vec<u8>)
        ensures
            pixels@ == self@.pixels,
            pixels.len() == rgba_len(self@.dims()),
    {
        proof {
            use_type_invariant(&self);
        }
        self.pixels
    }

    /// The image resampled with the triangle filter to exactly `nwidth` by
    /// `nheight`, whatever its proportions were.
    pub fn resize_exact(&self, nwidth: u32, nheight: u32) -> (resized: RasterImage)
        requires
            can_resample(self@.dims(), (nwidth, nheight)),
        ensures
            resized@ == (RasterView {
                width: nwidth,
                height: nheight,
                pixels: resampled(self@.pixels, self@.width, self@.height, nwidth, nheight),
            }),
            resized@.well_formed(),
    {
        proof {
            use_type_invariant(self);
        }
        let pixels = resize_triangle(&self.pixels, self.width, self.height, nwidth, nheight).unwrap();
        RasterImage { width: nwidth, height: nheight, pixels }
    }
}

/// Whether both images can be brought to the smaller of their two sizes.
pub open spec fn can_standardise_size(image1: RasterView, image2: RasterView) -> bool {
    let target = smallest_dimension(image1.dims(), image2.dims());
    image1.can_standardise(target) && image2.can_standardise(target)
}

/// Decides whether `standardise_size` takes the two images.
pub fn standardise_supported(image1: &RasterImage, image2: &RasterImage) -> (supported: bool)
    ensures
        supported == can_standardise_size(image1@, image2@),
{
    let dim1 = image1.dimensions();
    let dim2 = image2.dimensions();
    let target = get_smallest_dimension(dim1, dim2);
    let first = (dim1.0 == target.0 && dim1.1 == target.1) || resample_supported(dim1, target);
    let second = (dim2.0 == target.0 && dim2.1 == target.1) || resample_supported(dim2, target);
    first && second
}

/// Brings two images to the size of the one with fewer pixels (of the first,
/// where both have as many). An image that has that size already is handed
/// back untouched; the other is resampled to it with the triangle filter.
pub fn standardise_size(image1: RasterImage, image2: RasterImage) -> (sized: (
    RasterImage,
    RasterImage,
))
    requires
        can_standardise_size(image1@, image2@),
    ensures
        sized.0@ == image1@.standardised(smallest_dimension(image1@.dims(), image2@.dims())),
        sized.1@ == image2@.standardised(smallest_dimension(image1@.dims(), image2@.dims())),
        sized.0@.dims() == smallest_dimension(image1@.dims(), image2@.dims()),
        sized.1@.dims() == sized.0@.dims(),
        sized.0@.well_formed(),
        sized.1@.well_formed(),
{
    let dim1 = image1.dimensions();
    let dim2 = image2.dimensions();
    let (width, height) = get_smallest_dimension(dim1, dim2);
    let first = if dim1.0 == width && dim1.1 == height {
        image1
    } else {
        image1.resize_exact(width, height)
    };
    let second = if dim2.0 == width && dim2.1 == height {
        image2
    } else {
        image2.resize_exact(width, height)
    };
    (first, second)
}

/// Merges the RGBA data of two images that hold as many bytes, pixel by
/// pixel: even pixels from `image1`, odd pixels from `image2`.
pub fn combine_images(image1: RasterImage, image2: RasterImage) -> (combined: Vec<u8>)
    requires
        image1@.pixels.len() == image2@.pixels.len(),
    ensures
        combined@ == interleaved(image1@.pixels, image2@.pixels),
{
    let vec_1 = image1.into_vec();
    let vec_2 = image2.into_vec();
    alternate_pixels(vec_1, vec_2)
}

} // verus!

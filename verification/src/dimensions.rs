//! Choice of the common size of two images.

use vstd::prelude::*;

verus! {

/// Number of pixels of an image of the given `(width, height)`.
pub open spec fn pixel_count(dim: (u32, u32)) -> nat {
    (dim.0 as nat) * (dim.1 as nat)
}

/// The pair with fewer pixels; on equal pixel counts, the first pair.
pub open spec fn smallest_dimension(dim1: (u32, u32), dim2: (u32, u32)) -> (u32, u32) {
    if pixel_count(dim2) < pixel_count(dim1) {
        dim2
    } else {
        dim1
    }
}

proof fn lemma_pixel_count_fits(dim: (u32, u32))
    ensures
        pixel_count(dim) <= u64::MAX,
{
    assert((dim.0 as nat) * (dim.1 as nat) <= 0xffff_ffff * 0xffff_ffff) by (nonlinear_arith)
        requires
            dim.0 <= 0xffff_ffff,
            dim.1 <= 0xffff_ffff,
    ;
}

/// Returns whichever of the two `(width, height)` pairs covers fewer pixels.
/// Pairs are compared by the product of width and height, never field by
/// field, and a tie goes to `dim1`.
pub fn get_smallest_dimension(dim1: (u32, u32), dim2: (u32, u32)) -> (smallest: (u32, u32))
    ensures
        smallest == smallest_dimension(dim1, dim2),
        pixel_count(dim2) < pixel_count(dim1) ==> smallest == dim2,
        pixel_count(dim1) <= pixel_count(dim2) ==> smallest == dim1,
{
    proof {
        lemma_pixel_count_fits(dim1);
        lemma_pixel_count_fits(dim2);
    }
    let pix1: u64 = (dim1.0 as u64) * (dim1.1 as u64);
    let pix2: u64 = (dim2.0 as u64) * (dim2.1 as u64);
    if pix2 < pix1 {
        dim2
    } else {
        dim1
    }
}

} // verus!

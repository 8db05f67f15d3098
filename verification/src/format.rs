//! The container format that an image was stored in.

use vstd::prelude::*;

verus! {

/// Tag of the container format of a decoded image. Only its identity matters
/// here: two images are combined only if their tags are equal.
#[derive(Debug, Clone, Copy, PartialEq, Eq, Hash, Structural)]
pub enum ImageFormat {
    Png,
    Jpeg,
    Gif,
    WebP,
    Pnm,
    Tiff,
    Tga,
    Dds,
    Bmp,
    Ico,
    Hdr,
    OpenExr,
    Farbfeld,
    Avif,
    Qoi,
}

} // verus!

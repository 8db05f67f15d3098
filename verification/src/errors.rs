//! The ways in which combining two images can fail.

use vstd::prelude::*;

verus! {

/// Why a run was abandoned. Nothing is written once one of these is returned.
#[derive(Debug, Clone, Copy, PartialEq, Eq, Structural)]
pub enum ImageDataErrors {
    /// The two inputs were stored in different container formats.
    DifferentImageFormats,
    /// The merged pixel data is longer than the output buffer's capacity.
    BufferTooSmall,
}

} // verus!

//! Combines two raster images into one by bringing both to a common size and
//! alternating their RGBA pixels, with the merged bytes committed to an output
//! buffer of fixed capacity.

pub mod dimensions;
pub mod errors;
pub mod format;
pub mod interleave;
pub mod output;
pub mod pipeline;
pub mod raster;
pub mod resample;

pub use dimensions::get_smallest_dimension;
pub use errors::ImageDataErrors;
pub use format::ImageFormat;
pub use interleave::{alternate_pixels, set_rgba};
pub use output::FloatingImage;
pub use pipeline::merge_images;
pub use raster::{combine_images, standardise_size, standardise_supported, RasterImage};

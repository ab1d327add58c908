//! Combines two raster images of one format into a single striped image.
//!
//! The two pictures are brought to their common size, the smaller of the
//! two; their RGB buffers are interleaved in windows of four bytes; and the
//! result is committed to an output image that declared its capacity
//! beforehand.

pub mod combine;
pub mod dimension;
pub mod interleave;
pub mod normalise;
pub mod output;
pub mod picture;

pub use combine::check_same_format;
pub use combine::combine_images;
pub use combine::compose;
pub use dimension::get_smallest_dimension;
pub use interleave::alternate_pixels;
pub use interleave::set_rgba;
pub use normalise::standardise_size;
pub use output::FloatingImage;
pub use output::ImageDataErrors;

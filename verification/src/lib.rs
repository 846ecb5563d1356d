//! RGBA8 image operations: input validation, cropping, resizing, and the
//! integer side of the blur and convolution filters (edge sampling, pixel
//! addressing and parameter checks).

pub mod sampling;
pub mod error;
pub mod rgba;
pub mod transform;
pub mod filter;

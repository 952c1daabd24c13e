//! Image-to-AVIF conversion: the decision logic, the raw-sensor demosaicing
//! and the parameter validation of the `img2avif` tool, with their contracts.

pub mod config;
pub mod converter;
pub mod error;
pub mod exif;
pub mod float_bits;
pub mod paths;
pub mod picture;
pub mod processor;
pub mod text;
pub mod raw_decoder;

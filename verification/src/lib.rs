//! Combines two raster images into one by interleaving their pixel bytes.
//!
//! The pipeline negotiates the smaller of the two images' dimensions,
//! resizes the other image to match, interleaves the two RGB byte buffers
//! in alternating four-byte groups, and assembles the combined bytes into
//! an output image ready for encoding.

pub mod types;
pub mod dimensions;
pub mod standardize;
pub mod interleave;
pub mod output;
pub mod pipeline;

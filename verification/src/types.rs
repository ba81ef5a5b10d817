//! Core data model: the in-memory raster image, its container-format tag,
//! and the pipeline's error taxonomy.

use vstd::prelude::*;

verus! {

/// The encoding scheme of an image file. Both inputs to the pipeline must
/// carry the identical tag; this is the single format-compatibility gate.
#[derive(Clone, Copy, Debug, PartialEq, Eq, Structural)]
pub enum ContainerFormat {
    Png,
    Jpeg,
    Gif,
    WebP,
    Bmp,
    Tiff,
    Ico,
}

/// Errors the pipeline can surface to its caller. Every one is fatal:
/// nothing is retried and no partial output is produced.
#[derive(Clone, Copy, Debug, PartialEq, Eq, Structural)]
pub enum ImageError {
    /// The two input images carry different container-format tags.
    FormatMismatch,
    /// The combined byte length exceeds the pre-allocated output capacity.
    BufferTooSmall,
}

/// An in-memory decoded raster: dimensions, a container-format tag, and a
/// flat pixel buffer holding three bytes (one RGB channel group) per pixel.
pub struct Image {
    pub width: u32,
    pub height: u32,
    pub format: ContainerFormat,
    pub data: Vec<u8>,
}

impl Image {
    /// A well-formed image has positive dimensions and exactly three bytes
    /// of pixel data per pixel.
    pub open spec fn wf(self) -> bool {
        &&& self.width > 0
        &&& self.height > 0
        &&& self.data@.len() == 3 * self.width * self.height
    }

    /// The image's dimension pair, as the negotiator consumes it.
    pub open spec fn spec_dimensions(self) -> (u32, u32) {
        (self.width, self.height)
    }

    /// Width and height as a pair.
    pub fn dimensions(&self) -> (r: (u32, u32))
        ensures
            r == self.spec_dimensions(),
    {
        (self.width, self.height)
    }
}

} // verus!

//! Output assembly: a two-phase builder that first reserves the output
//! buffer's capacity and then commits the combined bytes into it, refusing
//! anything that would exceed the reservation.

use vstd::prelude::*;
use crate::types::ImageError;

verus! {

/// The output image handed to the external encoder: target dimensions, the
/// output file name, and the combined byte buffer, with a pre-allocated
/// capacity of four bytes per pixel that the buffer must never exceed.
pub struct FloatingImage {
    pub width: u32,
    pub height: u32,
    pub data: Vec<u8>,
    pub name: String,
}

impl FloatingImage {
    /// The reserved capacity: four bytes for every pixel of the target
    /// dimensions.
    pub open spec fn spec_capacity(self) -> int {
        4 * self.width * self.height
    }

    /// The reserved capacity is computed in 32-bit arithmetic, so a
    /// well-formed output image keeps it within that range.
    pub open spec fn wf(self) -> bool {
        4 * self.width * self.height <= u32::MAX
    }

    /// Reserves an output image for the given dimensions and name, with an
    /// empty buffer: content arrives only through `set_data`.
    pub fn new(width: u32, height: u32, name: String) -> (r: FloatingImage)
        requires
            4 * width * height <= u32::MAX,
        ensures
            r.width == width,
            r.height == height,
            r.name@ == name@,
            r.data@.len() == 0,
            r.wf(),
    {
        proof {
            assert(height * width * 4 == 4 * width * height) by (nonlinear_arith);
        }
        let buffer_capacity: u32 = height * width * 4;
        let buffer: Vec<u8> = Vec::with_capacity(buffer_capacity as usize);
        FloatingImage { width, height, data: buffer, name }
    }

    /// Commits the combined bytes. Fails with `BufferTooSmall`, leaving the
    /// image unchanged, exactly when the bytes would overrun the reserved
    /// capacity; succeeds, with the buffer populated exactly, otherwise.
    pub fn set_data(&mut self, data: Vec<u8>) -> (r: Result<(), ImageError>)
        requires
            old(self).wf(),
        ensures
            final(self).wf(),
            r is Ok <==> data@.len() <= old(self).spec_capacity(),
            r is Ok ==> final(self).data == data
                && final(self).width == old(self).width
                && final(self).height == old(self).height
                && final(self).name == old(self).name,
            r is Err ==> r == Err::<(), ImageError>(ImageError::BufferTooSmall)
                && *final(self) == *old(self),
    {
        proof {
            assert(self.height * self.width * 4 == 4 * self.width * self.height)
                by (nonlinear_arith);
        }
        let capacity: u32 = self.height * self.width * 4;
        if data.len() > capacity as usize {
            return Err(ImageError::BufferTooSmall);
        }
        self.data = data;
        Ok(())
    }
}

} // verus!

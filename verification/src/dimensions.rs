//! Dimension negotiation: of two (width, height) pairs, pick the one with
//! the fewer total pixels.

use vstd::prelude::*;

verus! {

/// The pixel count a dimension pair stands for.
pub open spec fn pixel_count(dim: (u32, u32)) -> int {
    dim.0 * dim.1
}

/// Which pair the negotiator picks: the first exactly when its pixel count
/// is strictly smaller, the second otherwise (ties go to the second).
pub open spec fn smallest_dimensions(dim_1: (u32, u32), dim_2: (u32, u32)) -> (u32, u32) {
    if pixel_count(dim_1) < pixel_count(dim_2) {
        dim_1
    } else {
        dim_2
    }
}

/// Returns the dimension pair with the fewer total pixels; on a tie the
/// second pair is returned, so the choice is deterministic.
pub fn get_smallest_image_dimentions(dim_1: (u32, u32), dim_2: (u32, u32)) -> (r: (u32, u32))
    requires
        pixel_count(dim_1) <= u32::MAX,
        pixel_count(dim_2) <= u32::MAX,
    ensures
        r == smallest_dimensions(dim_1, dim_2),
        r == dim_1 || r == dim_2,
        pixel_count(r) <= pixel_count(dim_1),
        pixel_count(r) <= pixel_count(dim_2),
{
    let pix_1: u32 = dim_1.0 * dim_1.1;
    let pix_2: u32 = dim_2.0 * dim_2.1;

    if pix_1 < pix_2 {
        dim_1
    } else {
        dim_2
    }
}

/// The negotiated pair never covers more pixels than either input pair:
/// its pixel count is the minimum of the two.
pub proof fn lemma_smallest_is_minimal(dim_1: (u32, u32), dim_2: (u32, u32))
    ensures
        pixel_count(smallest_dimensions(dim_1, dim_2)) <= pixel_count(dim_1),
        pixel_count(smallest_dimensions(dim_1, dim_2)) <= pixel_count(dim_2),
        smallest_dimensions(dim_1, dim_2) == dim_1 || smallest_dimensions(dim_1, dim_2) == dim_2,
{
}

} // verus!

//! The full combination pipeline: check the format gate, standardize sizes,
//! interleave the pixel bytes, and assemble the output image.

use vstd::prelude::*;
use crate::types::{Image, ImageError};
use crate::dimensions::{pixel_count, smallest_dimensions};
use crate::standardize::{resample_of, standardize_size};
use crate::interleave::{interleave_spec, alternate_pixels};
use crate::output::FloatingImage;

verus! {

/// The dimension pair the pipeline negotiates for the given inputs.
pub open spec fn negotiated(image_1: Image, image_2: Image) -> (u32, u32) {
    smallest_dimensions(image_1.spec_dimensions(), image_2.spec_dimensions())
}

/// The combined byte sequence the pipeline produces for the given inputs:
/// one image is brought to the negotiated dimensions by the resampling
/// kernel, the other is used as it stands, and the two buffers are
/// interleaved in alternating four-byte groups.
pub open spec fn combined_bytes(image_1: Image, image_2: Image) -> Seq<u8> {
    let dims = negotiated(image_1, image_2);
    if image_2.spec_dimensions() == dims {
        interleave_spec(
            resample_of(image_1.data@, image_1.width, image_1.height, dims.0, dims.1),
            image_2.data@,
        )
    } else {
        interleave_spec(
            image_1.data@,
            resample_of(image_2.data@, image_2.width, image_2.height, dims.0, dims.1),
        )
    }
}

/// Interleaves the pixel buffers of two images that have already been
/// standardized to the same dimensions.
pub fn combine_images(image_1: Image, image_2: Image) -> (r: Vec<u8>)
    requires
        image_1.wf(),
        image_2.wf(),
        image_1.spec_dimensions() == image_2.spec_dimensions(),
        (3 * pixel_count(image_1.spec_dimensions())) % 4 == 0,
    ensures
        r@ == interleave_spec(image_1.data@, image_2.data@),
        r@.len() == image_1.data@.len(),
{
    proof {
        assert(3 * image_1.width * image_1.height == 3 * (image_1.width * image_1.height))
            by (nonlinear_arith);
    }
    alternate_pixels(image_1.data, image_2.data)
}

/// Runs the whole pipeline on two decoded images. Fails with
/// `FormatMismatch`, before any resizing work, exactly when the two
/// container-format tags differ; otherwise returns the assembled output
/// image at the negotiated dimensions, its buffer holding the interleaved
/// bytes and never exceeding the reserved capacity.
pub fn combine(image_1: Image, image_2: Image, output_name: String) -> (r: Result<
    FloatingImage,
    ImageError,
>)
    requires
        image_1.wf(),
        image_2.wf(),
        pixel_count(image_1.spec_dimensions()) <= u32::MAX,
        pixel_count(image_2.spec_dimensions()) <= u32::MAX,
        4 * pixel_count(negotiated(image_1, image_2)) <= u32::MAX,
        (3 * pixel_count(negotiated(image_1, image_2))) % 4 == 0,
    ensures
        r is Ok <==> image_1.format == image_2.format,
        r is Err ==> r == Err::<FloatingImage, ImageError>(ImageError::FormatMismatch),
        r is Ok ==> ({
            let out = r->Ok_0;
            &&& out.width == negotiated(image_1, image_2).0
            &&& out.height == negotiated(image_1, image_2).1
            &&& out.name@ == output_name@
            &&& out.data@ == combined_bytes(image_1, image_2)
            &&& out.data@.len() <= out.spec_capacity()
            &&& out.wf()
        }),
{
    if image_1.format != image_2.format {
        return Err(ImageError::FormatMismatch);
    }

    let (image_1, image_2) = standardize_size(image_1, image_2);

    proof {
        assert(4 * image_1.width * image_1.height == 4 * (image_1.width * image_1.height))
            by (nonlinear_arith);
        assert(3 * image_1.width * image_1.height <= 4 * image_1.width * image_1.height)
            by (nonlinear_arith);
        assert(3 * (image_1.width * image_1.height) == 3 * image_1.width * image_1.height)
            by (nonlinear_arith);
    }

    let mut output = FloatingImage::new(image_1.width, image_1.height, output_name);

    let combined_data = combine_images(image_1, image_2);
    match output.set_data(combined_data) {
        Ok(()) => Ok(output),
        Err(e) => Err(e),
    }
}

/// The pipeline is deterministic: the combined bytes are a function of the
/// two input images alone, so running the pipeline twice on identical
/// inputs produces byte-identical output buffers.
pub proof fn lemma_pipeline_deterministic(a1: Image, b1: Image, a2: Image, b2: Image)
    requires
        a1 == a2,
        b1 == b2,
    ensures
        combined_bytes(a1, b1) == combined_bytes(a2, b2),
{
}

} // verus!

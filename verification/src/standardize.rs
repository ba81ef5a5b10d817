//! Size standardization: bring both images to the negotiated (smallest)
//! dimensions, resizing at most one of them through an external
//! resampling kernel.

use vstd::prelude::*;
use crate::types::Image;
use crate::dimensions::{pixel_count, smallest_dimensions, get_smallest_image_dimentions};

verus! {

/// The bytes that the external triangle-filter resampling kernel produces
/// for the given RGB pixel data and source/target dimensions. The result
/// depends on these arguments alone.
pub uninterp spec fn resample_of(data: Seq<u8>, src_w: u32, src_h: u32, dst_w: u32, dst_h: u32) -> Seq<u8>;

/// Relies on image::imageops::resize with the Triangle filter: it returns a
/// dst_w x dst_h RGB buffer computed from the input pixels and dimensions
/// alone, and copies the pixels unchanged when the dimensions already match.
/// image::RgbImage::from_raw and ImageBuffer::into_vec only move the byte
/// buffer in and out.
#[verifier::external_body]
fn resample_rgb(data: &Vec<u8>, src_w: u32, src_h: u32, dst_w: u32, dst_h: u32) -> (r: Vec<u8>)
    requires
        data@.len() == 3 * src_w * src_h,
        src_w > 0,
        src_h > 0,
        dst_w > 0,
        dst_h > 0,
    ensures
        r@ == resample_of(data@, src_w, src_h, dst_w, dst_h),
        r@.len() == 3 * dst_w * dst_h,
        src_w == dst_w && src_h == dst_h ==> r@ == data@,
{
    let img = image::RgbImage::from_raw(src_w, src_h, data.clone()).unwrap();
    image::imageops::resize(&img, dst_w, dst_h, image::imageops::FilterType::Triangle).into_vec()
}

/// Returns both images at the negotiated smallest dimensions. If the second
/// image already matches those dimensions it is returned untouched and the
/// first is resampled; otherwise the first already matches, is returned
/// untouched, and the second is resampled. An image whose dimensions already
/// equal the negotiated pair keeps its bytes unchanged either way.
pub fn standardize_size(image_1: Image, image_2: Image) -> (r: (Image, Image))
    requires
        image_1.wf(),
        image_2.wf(),
        pixel_count(image_1.spec_dimensions()) <= u32::MAX,
        pixel_count(image_2.spec_dimensions()) <= u32::MAX,
    ensures
        ({
            let dims = smallest_dimensions(image_1.spec_dimensions(), image_2.spec_dimensions());
            &&& r.0.wf()
            &&& r.1.wf()
            &&& r.0.spec_dimensions() == dims
            &&& r.1.spec_dimensions() == dims
            &&& r.0.format == image_1.format
            &&& r.1.format == image_2.format
            &&& if image_2.spec_dimensions() == dims {
                    &&& r.1 == image_2
                    &&& r.0.data@ == resample_of(
                        image_1.data@, image_1.width, image_1.height, dims.0, dims.1)
                } else {
                    &&& r.0 == image_1
                    &&& r.1.data@ == resample_of(
                        image_2.data@, image_2.width, image_2.height, dims.0, dims.1)
                }
            &&& image_1.spec_dimensions() == dims ==> r.0.data@ == image_1.data@
            &&& image_2.spec_dimensions() == dims ==> r.1.data@ == image_2.data@
        }),
{
    let (width, height) = get_smallest_image_dimentions(image_1.dimensions(), image_2.dimensions());

    if image_2.width == width && image_2.height == height {
        let resized = resample_rgb(&image_1.data, image_1.width, image_1.height, width, height);
        (
            Image { width, height, format: image_1.format, data: resized },
            image_2,
        )
    } else {
        let resized = resample_rgb(&image_2.data, image_2.width, image_2.height, width, height);
        (
            image_1,
            Image { width, height, format: image_2.format, data: resized },
        )
    }
}

} // verus!

use combiner::dimensions::get_smallest_image_dimentions;
use combiner::interleave::{alternate_pixels, set_rgba};
use combiner::output::FloatingImage;
use combiner::types::ImageError;

#[test]
fn smallest_picks_fewer_pixels() {
    // 2*3 = 6 pixels vs 4*1 = 4 pixels: the second pair wins.
    assert_eq!(get_smallest_image_dimentions((2, 3), (4, 1)), (4, 1));
    // 5*5 = 25 pixels vs 10*10 = 100 pixels: the first pair wins.
    assert_eq!(get_smallest_image_dimentions((5, 5), (10, 10)), (5, 5));
}

#[test]
fn smallest_tie_goes_to_second() {
    // 2*2 and 4*1 both cover 4 pixels: ties pick the second pair.
    assert_eq!(get_smallest_image_dimentions((2, 2), (4, 1)), (4, 1));
    assert_eq!(get_smallest_image_dimentions((4, 1), (2, 2)), (2, 2));
}

#[test]
fn interleave_marker_groups() {
    // Groups starting at offsets that are multiples of 8 come from the
    // first source, the rest from the second, each read at its own offset.
    let a: Vec<u8> = vec![1, 1, 1, 1, 2, 2, 2, 2];
    let b: Vec<u8> = vec![9, 9, 9, 9, 8, 8, 8, 8];
    let combined = alternate_pixels(a, b);
    assert_eq!(combined, vec![1, 1, 1, 1, 8, 8, 8, 8]);
}

#[test]
fn interleave_length_matches_first_input() {
    let a: Vec<u8> = (0..16).collect();
    let b: Vec<u8> = (100..116).collect();
    let combined = alternate_pixels(a, b);
    assert_eq!(combined.len(), 16);
    assert_eq!(combined, vec![0, 1, 2, 3, 104, 105, 106, 107, 8, 9, 10, 11, 112, 113, 114, 115]);
}

#[test]
fn interleave_empty_inputs() {
    let combined = alternate_pixels(Vec::new(), Vec::new());
    assert_eq!(combined.len(), 0);
}

#[test]
fn set_rgba_extracts_inclusive_range() {
    let v: Vec<u8> = vec![10, 20, 30, 40, 50, 60, 70, 80];
    assert_eq!(set_rgba(&v, 0, 3), vec![10, 20, 30, 40]);
    assert_eq!(set_rgba(&v, 4, 7), vec![50, 60, 70, 80]);
    assert_eq!(set_rgba(&v, 2, 2), vec![30]);
}

#[test]
fn floating_image_starts_empty() {
    let output = FloatingImage::new(2, 3, String::from("out.png"));
    assert_eq!(output.width, 2);
    assert_eq!(output.height, 3);
    assert_eq!(output.name, "out.png");
    assert_eq!(output.data.len(), 0);
}

#[test]
fn set_data_rejects_oversized_buffer() {
    // Capacity is 1 * 1 * 4 = 4 bytes; five bytes must be refused whole.
    let mut output = FloatingImage::new(1, 1, String::from("out.png"));
    let result = output.set_data(vec![1, 2, 3, 4, 5]);
    assert_eq!(result, Err(ImageError::BufferTooSmall));
    assert_eq!(output.data.len(), 0);
}

#[test]
fn set_data_accepts_buffer_within_capacity() {
    let mut output = FloatingImage::new(1, 1, String::from("out.png"));
    let result = output.set_data(vec![7, 8, 9]);
    assert_eq!(result, Ok(()));
    assert_eq!(output.data, vec![7, 8, 9]);
}

#[test]
fn set_data_accepts_buffer_at_exact_capacity() {
    let mut output = FloatingImage::new(1, 1, String::from("out.png"));
    let result = output.set_data(vec![1, 2, 3, 4]);
    assert_eq!(result, Ok(()));
    assert_eq!(output.data, vec![1, 2, 3, 4]);
}

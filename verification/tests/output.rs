use image_combiner::FloatingImage;
use image_combiner::ImageDataErrors;

#[test]
fn new_output_is_reserved_and_empty() {
    let output = FloatingImage::new(3, 2, String::from("out.png"));
    assert_eq!(output.width(), 3);
    assert_eq!(output.height(), 2);
    assert_eq!(output.name(), "out.png");
    assert_eq!(output.capacity(), 24);
    assert!(output.data().is_empty());
    assert!(!output.is_committed());
}

#[test]
fn capacity_is_four_bytes_per_pixel_without_overflow() {
    assert_eq!(FloatingImage::new(0, 7, String::new()).capacity(), 0);
    assert_eq!(FloatingImage::new(1, 1, String::new()).capacity(), 4);
    assert_eq!(
        FloatingImage::new(u32::MAX, u32::MAX, String::new()).capacity(),
        4 * (u32::MAX as u128) * (u32::MAX as u128)
    );
}

#[test]
fn buffer_within_capacity_is_stored_exactly() {
    let mut output = FloatingImage::new(2, 2, String::from("a"));
    let buffer: Vec<u8> = (0..12).collect();
    assert_eq!(output.set_data(buffer.clone()), Ok(()));
    assert_eq!(output.data(), &buffer);
    assert!(output.is_committed());
    assert_eq!(output.width(), 2);
    assert_eq!(output.height(), 2);
    assert_eq!(output.name(), "a");
}

#[test]
fn buffer_of_exactly_the_capacity_is_accepted() {
    let mut output = FloatingImage::new(2, 2, String::from("a"));
    let buffer = vec![7u8; 16];
    assert_eq!(output.set_data(buffer.clone()), Ok(()));
    assert_eq!(output.data(), &buffer);
}

#[test]
fn buffer_beyond_capacity_is_refused_and_nothing_assigned() {
    let mut output = FloatingImage::new(2, 2, String::from("a"));
    let result = output.set_data(vec![7u8; 17]);
    assert_eq!(result, Err(ImageDataErrors::BufferTooSmall));
    assert!(output.data().is_empty());
    assert!(!output.is_committed());
    assert_eq!(output.capacity(), 16);
}

#[test]
fn empty_buffer_fits_zero_capacity() {
    let mut output = FloatingImage::new(0, 0, String::from("none"));
    assert_eq!(output.set_data(Vec::new()), Ok(()));
    assert!(output.is_committed());
    assert!(output.data().is_empty());
    assert_eq!(output.set_data(vec![1]), Err(ImageDataErrors::BufferTooSmall));
    assert!(output.is_committed());
}

#[test]
fn refused_buffer_leaves_committed_buffer_in_place() {
    let mut output = FloatingImage::new(1, 2, String::from("a"));
    assert_eq!(output.set_data(vec![1, 2, 3]), Ok(()));
    assert_eq!(output.set_data(vec![0u8; 9]), Err(ImageDataErrors::BufferTooSmall));
    assert_eq!(output.data(), &vec![1, 2, 3]);
    assert!(output.is_committed());
}

#[test]
fn later_buffer_replaces_earlier_one_wholesale() {
    let mut output = FloatingImage::new(1, 2, String::from("a"));
    assert_eq!(output.set_data(vec![1, 2, 3, 4, 5]), Ok(()));
    assert_eq!(output.set_data(vec![9, 9]), Ok(()));
    assert_eq!(output.data(), &vec![9, 9]);
}

#[test]
fn error_variants_are_distinct() {
    assert_ne!(ImageDataErrors::DifferentImageFormats, ImageDataErrors::BufferTooSmall);
    assert_eq!(format!("{:?}", ImageDataErrors::BufferTooSmall), "BufferTooSmall");
    assert_eq!(
        format!("{:?}", ImageDataErrors::DifferentImageFormats),
        "DifferentImageFormats"
    );
}

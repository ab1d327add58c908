use image_combiner::get_smallest_dimension;
use image_combiner::normalise::is_resizable;
use image_combiner::picture::MAX_SIDE;

#[test]
fn smaller_product_wins() {
    assert_eq!(get_smallest_dimension((100, 50), (80, 80)), (100, 50));
    assert_eq!(get_smallest_dimension((80, 80), (100, 50)), (100, 50));
}

#[test]
fn second_is_returned_when_strictly_smaller() {
    assert_eq!(get_smallest_dimension((640, 480), (320, 240)), (320, 240));
    assert_eq!(get_smallest_dimension((3, 3), (2, 4)), (2, 4));
}

#[test]
fn tie_goes_to_first() {
    assert_eq!(get_smallest_dimension((2, 3), (3, 2)), (2, 3));
    assert_eq!(get_smallest_dimension((3, 2), (2, 3)), (3, 2));
    assert_eq!(get_smallest_dimension((6, 1), (2, 3)), (6, 1));
}

#[test]
fn identical_dimensions_are_returned() {
    assert_eq!(get_smallest_dimension((7, 9), (7, 9)), (7, 9));
}

#[test]
fn zero_area_is_smallest() {
    assert_eq!(get_smallest_dimension((10, 10), (0, 500)), (0, 500));
    assert_eq!(get_smallest_dimension((0, 500), (10, 10)), (0, 500));
    assert_eq!(get_smallest_dimension((0, 5), (9, 0)), (0, 5));
}

#[test]
fn products_beyond_32_bits_do_not_wrap() {
    // 65536 * 65536 is 2^32, which a 32-bit product would wrap to zero.
    assert_eq!(get_smallest_dimension((65536, 65536), (1, 1)), (1, 1));
    assert_eq!(get_smallest_dimension((1, 1), (65536, 65536)), (1, 1));
    assert_eq!(
        get_smallest_dimension((u32::MAX, u32::MAX), (u32::MAX, u32::MAX - 1)),
        (u32::MAX, u32::MAX - 1)
    );
    assert_eq!(
        get_smallest_dimension((u32::MAX, u32::MAX - 1), (u32::MAX - 1, u32::MAX)),
        (u32::MAX, u32::MAX - 1)
    );
}

#[test]
fn ordinary_sizes_are_resizable() {
    assert!(is_resizable((1920, 1080), (1280, 720)));
    assert!(is_resizable((1, 1), (1, 1)));
    assert!(is_resizable((4, 4), (2, 8)));
}

#[test]
fn degenerate_sizes_are_not_resizable() {
    assert!(!is_resizable((0, 10), (5, 5)));
    assert!(!is_resizable((10, 0), (5, 5)));
    assert!(!is_resizable((10, 10), (0, 5)));
    assert!(!is_resizable((10, 10), (5, 0)));
    assert!(!is_resizable((MAX_SIDE + 1, 10), (5, 5)));
    assert!(!is_resizable((10, MAX_SIDE + 1), (5, 5)));
    assert!(!is_resizable((10, 10), (MAX_SIDE + 1, 5)));
    assert!(!is_resizable((10, 10), (5, MAX_SIDE + 1)));
}

#[test]
fn longest_side_is_two_to_the_twentieth() {
    assert_eq!(MAX_SIDE, 1 << 20);
    assert!(is_resizable((MAX_SIDE, 1), (1, 1)));
    assert!(is_resizable((1, 1), (1, MAX_SIDE)));
}

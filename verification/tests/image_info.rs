use std::mem;

#[test]
fn size_of_val_actually_counts_slices_bytes() {
    let x: [u16; 4] = Default::default();
    assert_eq!(mem::size_of_val(&x), 8);
}

use skia_safe::image_info::{valid_pixels, valid_row_bytes};

#[test]
fn row_bytes_rules() {
    assert!(valid_row_bytes(40, 40, 2));
    assert!(valid_row_bytes(44, 40, 2));
    assert!(!valid_row_bytes(42, 40, 2));
    assert!(!valid_row_bytes(36, 40, 2));
    assert!(valid_row_bytes(41, 40, 0));
    assert!(valid_pixels(40, 400, 40, 2, 400));
    assert!(!valid_pixels(40, 399, 40, 2, 400));
}

use skia_safe::font::{
    glyph_buffer_capacity, is_valid_size, widths_bounds_lengths_are_valid, FontFlags,
    EMBOLDEN_FLAG, FORCE_AUTO_HINTING_FLAG, SUBPIXEL_FLAG,
};

#[test]
fn test_flags() {
    let mut font = FontFlags(0);

    font = font.with_flag(FORCE_AUTO_HINTING_FLAG, true);
    assert!(font.has_flag(FORCE_AUTO_HINTING_FLAG));
    font = font.with_flag(FORCE_AUTO_HINTING_FLAG, false);
    assert!(!font.has_flag(FORCE_AUTO_HINTING_FLAG));

    font = font.with_flag(EMBOLDEN_FLAG, true);
    assert!(font.has_flag(EMBOLDEN_FLAG));
    font = font.with_flag(EMBOLDEN_FLAG, false);
    assert!(!font.has_flag(EMBOLDEN_FLAG));
}

#[test]
fn flags_are_independent() {
    let f = FontFlags(0).with_flag(SUBPIXEL_FLAG, true).with_flag(EMBOLDEN_FLAG, true);
    assert_eq!(f.0, 0x14);
    let g = f.with_flag(SUBPIXEL_FLAG, false);
    assert!(g.has_flag(EMBOLDEN_FLAG));
    assert!(!g.has_flag(SUBPIXEL_FLAG));
}

#[test]
fn font_sizes() {
    assert!(is_valid_size(12.0f32.to_bits()));
    assert!(is_valid_size(0.0f32.to_bits()));
    assert!(is_valid_size((-0.0f32).to_bits()));
    assert!(!is_valid_size((-1.0f32).to_bits()));
    assert!(!is_valid_size(f32::INFINITY.to_bits()));
    assert!(!is_valid_size(f32::NAN.to_bits()));
}

#[test]
fn glyph_buffers() {
    assert_eq!(glyph_buffer_capacity(10), 10);
    assert_eq!(glyph_buffer_capacity(usize::MAX), i32::MAX);
    assert!(widths_bounds_lengths_are_valid(3, Some(3), None));
    assert!(widths_bounds_lengths_are_valid(3, None, None));
    assert!(!widths_bounds_lengths_are_valid(3, Some(3), Some(2)));
}

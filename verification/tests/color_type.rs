use skia_safe::ColorType;

#[test]
fn bytes_and_shifts_per_pixel() {
    assert_eq!(ColorType::Unknown.bytes_per_pixel(), 0);
    assert_eq!(ColorType::Alpha8.bytes_per_pixel(), 1);
    assert_eq!(ColorType::RGB565.bytes_per_pixel(), 2);
    assert_eq!(ColorType::RGBA8888.bytes_per_pixel(), 4);
    assert_eq!(ColorType::RGBAF16.bytes_per_pixel(), 8);
    assert_eq!(ColorType::RGBAF32.bytes_per_pixel(), 16);
    assert_eq!(ColorType::R8UNorm.bytes_per_pixel(), 1);
    assert_eq!(ColorType::RGBAF32.shift_per_pixel(), 4);
    assert_eq!(ColorType::RGBA8888.shift_per_pixel(), 2);
    assert_eq!(ColorType::Gray8.shift_per_pixel(), 0);
    assert_eq!(ColorType::COUNT, 28);
}

use skia_safe::matrix44::Vector4;
use std::mem;

fn s(v: f32) -> u32 {
    v.to_bits()
}

#[test]
fn test_vector4_layout() {
    assert_eq!(mem::size_of::<Vector4>(), 4 * mem::size_of::<f32>());
    assert_eq!(mem::align_of::<Vector4>(), mem::align_of::<f32>());
}

#[test]
fn vector4_w_defaults_to_one() {
    let v = Vector4::new(s(1.0), s(2.0), s(3.0), None);
    assert!(v.equals(s(1.0), s(2.0), s(3.0), Some(s(1.0))));
    assert!(v.equals(s(1.0), s(2.0), s(3.0), None));
    assert!(!v.equals(s(1.0), s(2.0), s(3.0), Some(s(0.0))));
    assert_eq!(Vector4::default(), Vector4::new(0, 0, 0, Some(s(1.0))));
}

#[test]
fn vector4_conversions() {
    let a: Vector4 = (s(1.0), s(2.0), s(3.0), s(4.0)).into();
    let b: Vector4 = [s(1.0), s(2.0), s(3.0), s(4.0)].into();
    assert_eq!(a, b);
    let c: Vector4 = (s(1.0), s(2.0), s(3.0)).into();
    let d: Vector4 = [s(1.0), s(2.0), s(3.0)].into();
    assert_eq!(c, d);
    assert!(c.equals(s(1.0), s(2.0), s(3.0), Some(s(1.0))));
}

#[test]
fn vector4_set_and_numeric_equality() {
    let mut v = Vector4::default();
    v.set(s(5.0), s(-0.0), s(7.0), Some(s(8.0)));
    assert!(v.equals(s(5.0), s(0.0), s(7.0), Some(s(8.0))));
    let n = Vector4::new(s(f32::NAN), 0, 0, None);
    assert!(n != n);
    assert!(!n.equals(s(f32::NAN), 0, 0, None));
}

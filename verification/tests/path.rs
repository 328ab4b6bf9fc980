use skia_safe::path::{conic_quads_fit, conic_quads_point_count};

#[test]
fn conic_quad_storage() {
    assert_eq!(conic_quads_point_count(0), 3);
    assert_eq!(conic_quads_point_count(1), 5);
    assert_eq!(conic_quads_point_count(5), 65);
    assert!(conic_quads_fit(65, 5));
    assert!(!conic_quads_fit(64, 5));
    assert!(conic_quads_fit(3, 0));
}

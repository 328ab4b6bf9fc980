use skia_safe::matrix::{AffineMember, Matrix, Member, TypeMask};
use skia_safe::RSXform;

fn s(v: f32) -> u32 {
    v.to_bits()
}

#[test]
fn test_get_set_trait_compilation() {
    let mut m = Matrix::new_identity();
    let _x = m.get(AffineMember::ScaleX);
    m.set(AffineMember::ScaleX, s(1.0));
}

#[test]
#[allow(clippy::float_cmp)]
fn test_tuple_to_vector() {
    let mut m = Matrix::new_identity();
    m.set_translate((s(10.0), s(11.0)));
    assert_eq!(s(10.0), m.translate_x());
    assert_eq!(s(11.0), m.translate_y());
}

#[test]
fn setting_a_matrix_component_recomputes_typemask() {
    let mut m = Matrix::default();
    assert_eq!(TypeMask::identity(), m.get_type());
    m.set_persp_x(s(0.1));
    assert_eq!(
        TypeMask::translate()
            .union(TypeMask::scale())
            .union(TypeMask::affine())
            .union(TypeMask::perspective()),
        m.get_type()
    );
}

#[test]
fn identity_entries_and_classes() {
    let m = Matrix::new_identity();
    let mut buffer = [0u32; 9];
    m.get_9(&mut buffer);
    assert_eq!(
        buffer,
        [s(1.0), 0, 0, 0, s(1.0), 0, 0, 0, s(1.0)]
    );
    assert!(m.is_identity());
    assert!(m.is_translate());
    assert!(m.is_scale_translate());
    assert!(m.rect_stays_rect());
    assert!(m.preserves_axis_alignment());
    assert!(!m.has_perspective());
    assert_eq!(m.get_type().bits(), 0);
    assert_eq!(Matrix::i(), m);
}

#[test]
fn translation_classes() {
    let m = Matrix::translate((s(3.0), s(-4.0)));
    assert_eq!(m.get_type(), TypeMask::translate());
    assert!(!m.is_identity());
    assert!(m.is_translate());
    assert!(m.is_scale_translate());
    assert!(m.rect_stays_rect());
    assert_eq!(m.rc(0, 2), s(3.0));
    assert_eq!(m.rc(1, 2), s(-4.0));
    let zero = Matrix::new_trans((s(0.0), s(-0.0)));
    assert!(zero.is_identity());
}

#[test]
fn scale_and_skew_classes() {
    let mut m = Matrix::new_identity();
    m.set_scale_x(s(2.0));
    assert_eq!(m.get_type(), TypeMask::scale());
    assert!(m.is_scale_translate());
    assert!(!m.is_translate());
    assert!(m.rect_stays_rect());

    m.set_skew_x(s(0.5));
    assert_eq!(m.get_type(), TypeMask::scale().union(TypeMask::affine()));
    assert!(!m.is_scale_translate());
    assert!(!m.rect_stays_rect());

    // A rotation by 90 degrees keeps rectangles rectangles.
    let r = Matrix::new_all(0, s(-1.0), 0, s(1.0), 0, 0, 0, 0, s(1.0));
    assert!(r.rect_stays_rect());
    assert_eq!(r.get_type(), TypeMask::scale().union(TypeMask::affine()));

    // A zero scale does not.
    let z = Matrix::new_all(0, 0, 0, 0, s(1.0), 0, 0, 0, s(1.0));
    assert!(!z.rect_stays_rect());
    assert!(z.is_scale_translate());
}

#[test]
fn perspective_sets_every_class() {
    let m = Matrix::new_all(s(1.0), 0, 0, 0, s(1.0), 0, 0, 0, s(2.0));
    assert!(m.has_perspective());
    assert_eq!(m.get_type().bits(), 0x0f);
    assert!(!m.rect_stays_rect());
    assert!(!m.is_scale_translate());
    assert_eq!(m.to_affine(), None);
}

#[test]
fn getters_and_setters_round_trip() {
    let mut m = Matrix::new_identity();
    m.set_scale_x(s(1.5))
        .set_skew_x(s(2.5))
        .set_translate_x(s(3.5))
        .set_skew_y(s(4.5))
        .set_scale_y(s(5.5))
        .set_translate_y(s(6.5))
        .set_persp_x(s(7.5))
        .set_persp_y(s(8.5));
    assert_eq!(m.scale_x(), s(1.5));
    assert_eq!(m.skew_x(), s(2.5));
    assert_eq!(m.translate_x(), s(3.5));
    assert_eq!(m.skew_y(), s(4.5));
    assert_eq!(m.scale_y(), s(5.5));
    assert_eq!(m.translate_y(), s(6.5));
    assert_eq!(m.persp_x(), s(7.5));
    assert_eq!(m.persp_y(), s(8.5));
    assert_eq!(m.get(Member::Persp2), s(1.0));
    assert_eq!(m.get(8usize), s(1.0));
    assert_eq!(m.get(AffineMember::SkewY), s(2.5));
}

#[test]
fn set_9_get_9_round_trip() {
    let values = [1u32, 2, 3, 4, 5, 6, 7, 8, 9];
    let mut m = Matrix::default();
    m.set_9(&values);
    let mut out = [0u32; 9];
    m.get_9(&mut out);
    assert_eq!(out, values);
    m.reset();
    assert!(m.is_identity());
    m.set_all(1, 2, 3, 4, 5, 6, 7, 8, 9);
    m.set_identity();
    assert!(m.is_identity());
}

#[test]
fn affine_round_trip() {
    let affine = [s(2.0), s(3.0), s(4.0), s(5.0), s(6.0), s(7.0)];
    let m = Matrix::from_affine(&affine);
    assert_eq!(m.scale_x(), s(2.0));
    assert_eq!(m.skew_y(), s(3.0));
    assert_eq!(m.skew_x(), s(4.0));
    assert_eq!(m.scale_y(), s(5.0));
    assert_eq!(m.translate_x(), s(6.0));
    assert_eq!(m.translate_y(), s(7.0));
    assert_eq!(m.to_affine(), Some(affine));

    let mut identity = [0u32; 6];
    Matrix::set_affine_identity(&mut identity);
    assert_eq!(identity, [s(1.0), 0, 0, s(1.0), 0, 0]);
    assert!(Matrix::from_affine(&identity).is_identity());
}

#[test]
fn scale_translate_entries() {
    let mut m = Matrix::new_identity();
    m.set_scale_translate((s(2.0), s(3.0)), (s(4.0), s(5.0)));
    let mut out = [0u32; 9];
    m.get_9(&mut out);
    assert_eq!(out, [s(2.0), 0, s(4.0), 0, s(3.0), s(5.0), 0, 0, s(1.0)]);
    assert_eq!(m.get_type(), TypeMask::scale().union(TypeMask::translate()));
    assert!(m.is_scale_translate());
    assert!(m.rect_stays_rect());
    assert!(!m.is_translate());
}

#[test]
fn scale_translate_with_zero_or_unit_scale() {
    let mut m = Matrix::new_identity();
    m.set_scale_translate((s(0.0), s(3.0)), (s(4.0), s(5.0)));
    assert!(m.is_scale_translate());
    assert!(!m.rect_stays_rect());
    m.set_scale_translate((s(1.0), s(1.0)), (s(4.0), s(5.0)));
    assert!(m.is_translate());
    assert!(m.rect_stays_rect());
}

#[test]
fn dirty_cache_keeps_entries_and_classes() {
    let mut m = Matrix::translate((s(1.0), s(2.0)));
    let before = m;
    m.dirty_matrix_type_cache();
    assert_eq!(m, before);
    assert_eq!(m.get_type(), TypeMask::translate());
}

#[test]
fn finiteness() {
    let mut m = Matrix::new_identity();
    assert!(m.is_finite());
    m.set_skew_y(s(f32::INFINITY));
    assert!(!m.is_finite());
    m.set_skew_y(s(f32::NAN));
    assert!(!m.is_finite());
    m.set_skew_y(s(-3.0));
    assert!(m.is_finite());
}

#[test]
fn numeric_equality() {
    let a = Matrix::translate((s(0.0), s(1.0)));
    let b = Matrix::translate((s(-0.0), s(1.0)));
    assert_eq!(a, b);
    let n = Matrix::translate((s(f32::NAN), s(1.0)));
    assert!(n != n);
    assert!(a != Matrix::translate((s(2.0), s(1.0))));
}

#[test]
fn type_mask_operations() {
    let ts = TypeMask::translate().union(TypeMask::scale());
    assert!(ts.contains(TypeMask::translate()));
    assert!(!ts.contains(TypeMask::affine()));
    assert_eq!(ts.complement().bits(), 0x0c);
    assert_eq!(ts.intersection(TypeMask::scale()), TypeMask::scale());
    assert!(TypeMask::identity().is_empty());
    assert_eq!(TypeMask::from_bits_truncate(0xff).bits(), 0x0f);
}

#[test]
fn rsxform_entries() {
    let mut m = Matrix::new_identity();
    m.set_rsxform(&RSXform {
        scos: 0,
        ssin: s(1.0),
        tx: s(5.0),
        ty: s(6.0),
    });
    let mut out = [0u32; 9];
    m.get_9(&mut out);
    assert_eq!(out, [0, s(-1.0), s(5.0), s(1.0), 0, s(6.0), 0, 0, s(1.0)]);
    assert!(m.rect_stays_rect());
    assert!(!m.is_scale_translate());
}

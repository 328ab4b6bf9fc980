use skia_safe::path_types::{PathFillType, PathVerb, Verb};
use skia_safe::canvas::RectType;
use skia_safe::AlphaType;

#[test]
fn fill_type_default_and_toggle() {
    let ft = PathFillType::default();
    assert_eq!(ft, PathFillType::Winding);
    let ft = PathFillType::EvenOdd;
    assert!(!ft.is_inverse());
    assert!(ft.is_even_odd());
    let toggled = ft.toggle_inverse();
    assert_eq!(toggled, PathFillType::InverseEvenOdd);
    assert!(toggled.is_inverse());
    assert!(toggled.is_even_odd());
    assert_eq!(toggled.toggle_inverse(), ft);
}

#[test]
fn fill_type_to_non_inverse() {
    assert_eq!(PathFillType::InverseWinding.to_non_inverse(), PathFillType::Winding);
    assert_eq!(PathFillType::InverseEvenOdd.to_non_inverse(), PathFillType::EvenOdd);
    assert_eq!(PathFillType::Winding.to_non_inverse(), PathFillType::Winding);
    assert_eq!(PathFillType::EvenOdd.to_non_inverse(), PathFillType::EvenOdd);
    assert!(!PathFillType::InverseWinding.is_even_odd());
    assert!(PathFillType::InverseWinding.is_inverse());
    assert!(!PathFillType::Winding.is_inverse());
}

#[test]
fn verb_points() {
    assert_eq!(PathVerb::Move.points(), 1);
    assert_eq!(PathVerb::Line.points(), 2);
    assert_eq!(PathVerb::Quad.points(), 3);
    assert_eq!(PathVerb::Conic.points(), 3);
    assert_eq!(PathVerb::Cubic.points(), 4);
    assert_eq!(PathVerb::Close.points(), 0);
    assert_eq!(Verb::Done.points(), 0);
    assert_eq!(Verb::from(PathVerb::Cubic), Verb::Cubic);
    assert_eq!(Verb::MAX_POINTS, 4);
    assert_eq!(PathVerb::MAX_POINTS, 4);
}

#[test]
fn alpha_type_opacity_and_rect_type_default() {
    assert!(AlphaType::Opaque.is_opaque());
    assert!(!AlphaType::Premul.is_opaque());
    assert!(!AlphaType::Unpremul.is_opaque());
    assert!(!AlphaType::Unknown.is_opaque());
    assert_eq!(RectType::default(), RectType::Default);
}

use skia_safe::font_metrics::{Flags, FontMetrics};

fn s(v: f32) -> u32 {
    v.to_bits()
}

fn metrics(flags: Flags) -> FontMetrics {
    FontMetrics::from_values(
        flags,
        s(-10.0),
        s(-8.0),
        s(2.0),
        s(3.0),
        s(1.0),
        s(5.0),
        s(9.0),
        s(-1.0),
        s(12.0),
        s(4.0),
        s(6.0),
        s(0.5),
        s(1.5),
        s(0.75),
        s(-3.0),
    )
}

#[test]
fn optional_metrics_follow_their_flags() {
    let none = metrics(Flags::empty());
    assert_eq!(none.underline_thickness(), None);
    assert_eq!(none.underline_position(), None);
    assert_eq!(none.strikeout_thickness(), None);
    assert_eq!(none.strikeout_position(), None);
    assert!(none.has_bounds());

    let all = metrics(
        Flags::underline_thickness_is_valid()
            .union(Flags::underline_position_is_valid())
            .union(Flags::strikeout_thickness_is_valid())
            .union(Flags::strikeout_position_is_valid()),
    );
    assert_eq!(all.underline_thickness(), Some(s(0.5)));
    assert_eq!(all.underline_position(), Some(s(1.5)));
    assert_eq!(all.strikeout_thickness(), Some(s(0.75)));
    assert_eq!(all.strikeout_position(), Some(s(-3.0)));

    let some = metrics(Flags::underline_position_is_valid());
    assert_eq!(some.underline_thickness(), None);
    assert_eq!(some.underline_position(), Some(s(1.5)));
}

#[test]
fn bounds_flag() {
    assert!(!metrics(Flags::bounds_invalid()).has_bounds());
    assert!(FontMetrics::default().has_bounds());
    assert_eq!(FontMetrics::default().flags(), Flags::default());
}

#[test]
fn flag_values() {
    assert_eq!(Flags::underline_thickness_is_valid().bits(), 1);
    assert_eq!(Flags::underline_position_is_valid().bits(), 2);
    assert_eq!(Flags::strikeout_thickness_is_valid().bits(), 4);
    assert_eq!(Flags::strikeout_position_is_valid().bits(), 8);
    assert_eq!(Flags::bounds_invalid().bits(), 16);
    assert_eq!(Flags::from_bits_truncate(0xff).bits(), 0x1f);
}

#[test]
fn public_fields_and_equality() {
    let m = metrics(Flags::empty());
    assert_eq!(m.top, s(-10.0));
    assert_eq!(m.cap_height, s(6.0));
    assert_eq!(m, metrics(Flags::empty()));
    assert!(m != metrics(Flags::bounds_invalid()));
}

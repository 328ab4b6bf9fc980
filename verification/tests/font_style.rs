use skia_safe::font_style::{Weight, Width};

#[test]
fn weights() {
    assert_eq!(*Weight::invisible(), 0);
    assert_eq!(*Weight::thin(), 100);
    assert_eq!(*Weight::extra_light(), 200);
    assert_eq!(*Weight::light(), 300);
    assert_eq!(*Weight::normal(), 400);
    assert_eq!(*Weight::medium(), 500);
    assert_eq!(*Weight::semi_bold(), 600);
    assert_eq!(*Weight::bold(), 700);
    assert_eq!(*Weight::extra_bold(), 800);
    assert_eq!(*Weight::black(), 900);
    assert_eq!(*Weight::extra_black(), 1000);
    assert_eq!(Weight::from(700), Weight::bold());
    assert!(Weight::light() < Weight::bold());
}

#[test]
fn widths() {
    assert_eq!(*Width::ultra_condensed(), 1);
    assert_eq!(*Width::extra_condensed(), 2);
    assert_eq!(*Width::condensed(), 3);
    assert_eq!(*Width::semi_condensed(), 4);
    assert_eq!(*Width::normal(), 5);
    assert_eq!(*Width::semi_expanded(), 6);
    assert_eq!(*Width::expanded(), 7);
    assert_eq!(*Width::extra_expanded(), 8);
    assert_eq!(*Width::ultra_expanded(), 9);
    assert_eq!(Width::from(5), Width::normal());
}

use skia_safe::font_style::{FontStyle, Slant};

#[test]
fn font_style_test_equality() {
    let style: FontStyle = Default::default();
    let style2: FontStyle = Default::default();
    assert!(style == style2);
}

#[test]
fn styles_clamp_and_keep_their_parts() {
    let s = FontStyle::new(Weight::from(1200), Width::from(0), Slant::Oblique);
    assert_eq!(s.weight(), Weight::extra_black());
    assert_eq!(s.width(), Width::ultra_condensed());
    assert_eq!(s.slant(), Slant::Oblique);
    let t = FontStyle::new(Weight::from(-5), Width::from(12), Slant::Upright);
    assert_eq!(*t.weight(), 0);
    assert_eq!(*t.width(), 9);
    assert_eq!(FontStyle::default(), FontStyle::normal());
    assert_eq!(FontStyle::bold().weight(), Weight::bold());
    assert_eq!(FontStyle::italic().slant(), Slant::Italic);
    assert_eq!(FontStyle::bold_italic(), FontStyle::new(Weight::bold(), Width::normal(), Slant::Italic));
    assert!(FontStyle::bold() != FontStyle::normal());
}

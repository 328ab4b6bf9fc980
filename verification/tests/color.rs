use skia_safe::color::{Color, RGB};

#[test]
fn argb_packing_and_components() {
    let c = Color::from_argb(0x12, 0x34, 0x56, 0x78);
    assert_eq!(c.value(), 0x1234_5678);
    assert_eq!((c.a(), c.r(), c.g(), c.b()), (0x12, 0x34, 0x56, 0x78));
    let rgb = Color::from_rgb(1, 2, 3);
    assert_eq!(rgb.value(), 0xff01_0203);
    assert_eq!(rgb.to_rgb(), RGB { r: 1, g: 2, b: 3 });
}

#[test]
fn with_alpha_keeps_the_color() {
    let c = Color::red().with_a(0x80);
    assert_eq!(c.value(), 0x80ff_0000);
    assert_eq!(c.r(), 0xff);
}

#[test]
fn named_colors() {
    assert_eq!(Color::transparent().value(), 0);
    assert_eq!(Color::black().value(), 0xff00_0000);
    assert_eq!(Color::dark_gray().value(), 0xff44_4444);
    assert_eq!(Color::gray().value(), 0xff88_8888);
    assert_eq!(Color::light_gray().value(), 0xffcc_cccc);
    assert_eq!(Color::white().value(), 0xffff_ffff);
    assert_eq!(Color::red().value(), 0xffff_0000);
    assert_eq!(Color::green().value(), 0xff00_ff00);
    assert_eq!(Color::blue().value(), 0xff00_00ff);
    assert_eq!(Color::yellow().value(), 0xffff_ff00);
    assert_eq!(Color::cyan().value(), 0xff00_ffff);
    assert_eq!(Color::magenta().value(), 0xffff_00ff);
    assert_eq!(Color::default(), Color::transparent());
}

#[test]
fn bit_operators() {
    assert_eq!(Color::red() | Color::blue(), Color::magenta());
    assert_eq!(Color::yellow() & Color::cyan(), Color::green());
    assert_eq!(Color::black() | 0x0000_ff00u32, Color::green());
    assert_eq!(Color::white() & 0xff00_00ffu32, Color::blue());
}

#[test]
fn conversions() {
    let c: Color = 0xff10_2030u32.into();
    assert_eq!(c, Color::new(0xff10_2030));
    let rgb: RGB = (0x10, 0x20, 0x30).into();
    let from_rgb: Color = rgb.into();
    assert_eq!(from_rgb, c);
}

use skia_safe::canvas::{glyph_draw_count, glyph_run_is_drawable, GlyphPositions, Lattice, RectType};
use skia_safe::{Color, Point, RSXform};

#[test]
fn glyph_runs() {
    assert_eq!(glyph_draw_count(0, 5), None);
    assert_eq!(glyph_draw_count(3, 3), Some(3));
    assert!(glyph_run_is_drawable(0, 7));
    assert!(glyph_run_is_drawable(2, 2));
    assert!(!glyph_run_is_drawable(2, 3));
}

#[test]
fn glyph_positions_lengths() {
    let points = [Point { x: 0, y: 0 }, Point { x: 1, y: 1 }];
    let p: GlyphPositions = (&points[..]).into();
    assert_eq!(p.len(), 2);
    let xforms = [RSXform {
        scos: 1.0f32.to_bits(),
        ssin: 0,
        tx: 0,
        ty: 0,
    }];
    let x: GlyphPositions = (&xforms[..]).into();
    assert_eq!(x.len(), 1);
}

#[test]
fn lattices() {
    let x_divs = [1, 2];
    let y_divs = [3];
    let plain = Lattice {
        x_divs: &x_divs,
        y_divs: &y_divs,
        rect_types: None,
        bounds: None,
        colors: None,
    };
    assert!(plain.is_drawable());
    assert_eq!(plain.native_counts(), (2, 1));

    let types = [RectType::Default; 6];
    let colors = [Color::red(); 6];
    let typed = Lattice {
        x_divs: &x_divs,
        y_divs: &y_divs,
        rect_types: Some(&types),
        bounds: None,
        colors: Some(&colors),
    };
    assert!(typed.is_drawable());

    let few = [RectType::Transparent; 5];
    let short = Lattice {
        x_divs: &x_divs,
        y_divs: &y_divs,
        rect_types: Some(&few),
        bounds: None,
        colors: Some(&colors),
    };
    assert!(!short.is_drawable());

    let no_colors = Lattice {
        x_divs: &x_divs,
        y_divs: &y_divs,
        rect_types: Some(&types),
        bounds: None,
        colors: None,
    };
    assert!(!no_colors.is_drawable());
}

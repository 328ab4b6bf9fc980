use skia_safe::font_arguments::{
    ffi_to_option_bool, option_bool_to_ffi, palette::Override, variation_position::Coordinate,
    FontArguments, Palette, VariationPosition,
};
use skia_safe::color::Color;

#[test]
fn font_arguments_test_font_arguments_with_no_coordinates() {
    let fa = FontArguments::new();
    let coordinates = fa.variation_design_position();
    assert_eq!(coordinates.coordinates, []);
}

#[test]
#[allow(clippy::float_cmp)]
fn font_arguments_access_coordinates() {
    let coordinates = Box::new([Coordinate {
        axis: 0.into(),
        value: 1.0f32.to_bits(),
    }]);
    let args = FontArguments::new();
    let pos = VariationPosition {
        coordinates: coordinates.as_ref(),
    };
    let args = args.set_variation_design_position(pos);
    assert_eq!(
        args.variation_design_position().coordinates[0].value,
        1.0f32.to_bits()
    );
    drop(args);
}

#[test]
fn synthetic_style_flags_roundtrip() {
    let mut args = FontArguments::new();

    assert_eq!(args.synthetic_bold(), None);
    assert_eq!(args.synthetic_oblique(), None);

    args.set_synthetic_bold(Some(true));
    assert_eq!(args.synthetic_bold(), Some(true));

    args.set_synthetic_bold(Some(false));
    assert_eq!(args.synthetic_bold(), Some(false));

    args.set_synthetic_bold(None);
    assert_eq!(args.synthetic_bold(), None);

    args.set_synthetic_oblique(Some(true));
    assert_eq!(args.synthetic_oblique(), Some(true));

    args.set_synthetic_oblique(Some(false));
    assert_eq!(args.synthetic_oblique(), Some(false));

    args.set_synthetic_oblique(None);
    assert_eq!(args.synthetic_oblique(), None);
}

#[test]
fn tri_state_encoding() {
    assert_eq!(option_bool_to_ffi(Some(true)), 1);
    assert_eq!(option_bool_to_ffi(Some(false)), 0);
    assert_eq!(option_bool_to_ffi(None), -1);
    assert_eq!(ffi_to_option_bool(1), Some(true));
    assert_eq!(ffi_to_option_bool(0), Some(false));
    assert_eq!(ffi_to_option_bool(-1), None);
    assert_eq!(ffi_to_option_bool(7), None);
}

#[test]
fn collection_index_and_palette() {
    let mut args = FontArguments::default();
    assert_eq!(args.collection_index(), 0);
    args.set_collection_index(3).set_synthetic_bold(Some(true));
    assert_eq!(args.collection_index(), 3);
    assert_eq!(args.synthetic_bold(), Some(true));

    let overrides = [Override {
        index: 2,
        color: Color::red(),
    }];
    let args = args.set_palette(Palette {
        index: 1,
        overrides: &overrides,
    });
    let palette = args.palette();
    assert_eq!(palette.index, 1);
    assert_eq!(palette.overrides, &overrides);
    assert_eq!(args.collection_index(), 3);
    assert_eq!(args.synthetic_bold(), Some(true));
    assert_eq!(FontArguments::new().palette().index, 0);
}

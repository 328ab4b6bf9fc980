use skia_safe::font_parameters::VariationAxis;
use skia_safe::types::FourByteTag;

#[test]
fn axis_hidden_flag() {
    let tag = FourByteTag::from_chars(b'w', b'g', b'h', b't');
    assert_eq!(tag.value(), 0x7767_6874);
    let mut axis = VariationAxis::new(tag, 100.0f32.to_bits(), 400.0f32.to_bits(), 900.0f32.to_bits(), false);
    assert!(!axis.is_hidden());
    axis.set_hidden(true);
    assert!(axis.is_hidden());
    assert_eq!(axis.min, 100.0f32.to_bits());
    axis.set_hidden(false);
    assert!(!axis.is_hidden());
    assert!(VariationAxis::new(tag, 0, 0, 0, true).is_hidden());
    assert_eq!(VariationAxis::default(), VariationAxis::new(FourByteTag::from(0), 0, 0, 0, false));
}

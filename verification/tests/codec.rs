use skia_safe::codec::{
    repetition_count_from_native, Blend, DisposalMethod, FrameInfo, NativeOptions, Options,
    ZeroInitialized, NO_FRAME,
};
use skia_safe::{AlphaType, IRect};

#[test]
fn repetition_counts() {
    assert_eq!(repetition_count_from_native(-1), None);
    assert_eq!(repetition_count_from_native(0), Some(0));
    assert_eq!(repetition_count_from_native(5), Some(5));
}

#[test]
fn options_as_the_decoder_takes_them() {
    let options = Options {
        zero_initialized: ZeroInitialized::Yes,
        subset: Some(IRect::new(1, 2, 3, 4)),
        frame_index: 7,
        prior_frame: None,
    };
    assert_eq!(
        options.to_native(),
        NativeOptions {
            zero_initialized: ZeroInitialized::Yes,
            subset: Some(IRect::new(1, 2, 3, 4)),
            frame_index: 7,
            prior_frame: NO_FRAME,
        }
    );
    let with_prior = Options {
        prior_frame: Some(3),
        ..options
    };
    assert_eq!(with_prior.to_native().prior_frame, 3);
}

#[test]
fn default_frame_info() {
    let f = FrameInfo::default();
    assert_eq!(f.required_frame, -1);
    assert_eq!(f.duration, 0);
    assert!(!f.fully_received);
    assert_eq!(f.alpha_type, AlphaType::Unknown);
    assert!(!f.has_alpha_within_bounds);
    assert_eq!(f.disposal_method, DisposalMethod::Keep);
    assert_eq!(f.blend, Blend::SrcOver);
    assert_eq!(f.rect, IRect::default());
    assert!(f.rect.is_empty());
}

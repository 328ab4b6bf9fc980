//! What the image decoders are asked and what they answer: decoding options,
//! the description of an animation frame, and the repetition count.
use vstd::prelude::*;
use crate::types::{AlphaType, IRect};

verus! {

/// The frame index that stands for "no frame".
pub const NO_FRAME: i32 = -1i32;

/// The repetition count that stands for "repeat forever".
pub const REPETITION_COUNT_INFINITE: i32 = -1i32;

/// Whether the destination pixels are already zero-initialized.
#[derive(Clone, Copy, PartialEq, Eq, Structural, Debug)]
pub enum ZeroInitialized {
    Yes,
    No,
}

/// What a decoder does with the previous frame once a frame is shown.
#[derive(Clone, Copy, PartialEq, Eq, Structural, Debug)]
pub enum DisposalMethod {
    Keep,
    RestoreBGColor,
    RestorePrevious,
}

/// How a frame is blended with the frame below it.
#[derive(Clone, Copy, PartialEq, Eq, Structural, Debug)]
pub enum Blend {
    SrcOver,
    Src,
}

/// Options of a decode.
#[derive(Clone, Copy, PartialEq, Eq, Structural, Debug)]
pub struct Options {
    pub zero_initialized: ZeroInitialized,
    pub subset: Option<IRect>,
    pub frame_index: usize,
    pub prior_frame: Option<usize>,
}

/// The options as the decoder takes them: the indices as `int`s, and "no
/// prior frame" as [`NO_FRAME`].
#[derive(Clone, Copy, PartialEq, Eq, Structural, Debug)]
pub struct NativeOptions {
    pub zero_initialized: ZeroInitialized,
    pub subset: Option<IRect>,
    pub frame_index: i32,
    pub prior_frame: i32,
}

/// The native index of an optional prior frame.
pub open spec fn spec_prior_frame_to_native(prior_frame: Option<usize>) -> int {
    match prior_frame {
        None => -1,
        Some(frame) => frame as int,
    }
}

impl Options {
    /// The options as the decoder takes them.
    pub fn to_native(&self) -> (n: NativeOptions)
        requires
            self.frame_index <= i32::MAX,
            self.prior_frame matches Some(f) ==> f <= i32::MAX,
        ensures
            n.zero_initialized == self.zero_initialized,
            n.subset == self.subset,
            n.frame_index == self.frame_index,
            n.prior_frame == spec_prior_frame_to_native(self.prior_frame),
    {
        NativeOptions {
            zero_initialized: self.zero_initialized,
            subset: self.subset,
            frame_index: self.frame_index as i32,
            prior_frame: match self.prior_frame {
                None => NO_FRAME,
                Some(frame) => frame as i32,
            },
        }
    }
}

/// The description of a frame of an animated image.
#[derive(Clone, Copy, Debug)]
pub struct FrameInfo {
    pub required_frame: i32,
    pub duration: i32,
    pub fully_received: bool,
    pub alpha_type: AlphaType,
    pub has_alpha_within_bounds: bool,
    pub disposal_method: DisposalMethod,
    pub blend: Blend,
    pub rect: IRect,
}

impl Default for FrameInfo {
    /// A frame that needs no other frame, lasts no time, is not yet received,
    /// has an unknown alpha type, keeps what it covers, blends over, and
    /// covers nothing.
    fn default() -> (f: FrameInfo)
        ensures
            f.required_frame == NO_FRAME,
            f.duration == 0,
            !f.fully_received,
            f.alpha_type == AlphaType::Unknown,
            !f.has_alpha_within_bounds,
            f.disposal_method == DisposalMethod::Keep,
            f.blend == Blend::SrcOver,
            f.rect == (IRect { left: 0, top: 0, right: 0, bottom: 0 }),
    {
        FrameInfo {
            required_frame: NO_FRAME,
            duration: 0,
            fully_received: false,
            alpha_type: AlphaType::Unknown,
            has_alpha_within_bounds: false,
            disposal_method: DisposalMethod::Keep,
            blend: Blend::SrcOver,
            rect: IRect::default(),
        }
    }
}

/// The number of times an animation repeats, from the decoder's answer:
/// `None` for "forever" ([`REPETITION_COUNT_INFINITE`]), else the count.
pub fn repetition_count_from_native(count: i32) -> (r: Option<usize>)
    requires
        count >= -1,
    ensures
        count == REPETITION_COUNT_INFINITE ==> r is None,
        count != REPETITION_COUNT_INFINITE ==> r == Some(count as usize),
{
    if count != REPETITION_COUNT_INFINITE {
        Some(count as usize)
    } else {
        None
    }
}

} // verus!

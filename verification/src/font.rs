//! The decisions a font makes on plain values: its private flags, the sizes
//! it accepts, and the buffers it fills with glyphs.
use vstd::prelude::*;
use crate::scalar::{Scalar, spec_is_finite, spec_is_zero, is_finite, is_zero};

verus! {

/// The font forces auto-hinting.
pub const FORCE_AUTO_HINTING_FLAG: u8 = 0x01u8;
/// The font uses embedded bitmaps.
pub const EMBEDDED_BITMAPS_FLAG: u8 = 0x02u8;
/// The font positions glyphs at sub-pixel offsets.
pub const SUBPIXEL_FLAG: u8 = 0x04u8;
/// The font keeps metrics linear.
pub const LINEAR_METRICS_FLAG: u8 = 0x08u8;
/// The font emboldens glyphs.
pub const EMBOLDEN_FLAG: u8 = 0x10u8;
/// The font snaps baselines to pixels.
pub const BASELINE_SNAP_FLAG: u8 = 0x20u8;

/// The private flags of a font, as a set of bits.
#[derive(Clone, Copy, PartialEq, Eq, Structural, Debug)]
pub struct FontFlags(pub u8);

impl FontFlags {
    /// Whether every bit of `flag` is set.
    pub fn has_flag(self, flag: u8) -> (r: bool)
        ensures
            r == (self.0 & flag != 0),
    {
        self.0 & flag != 0
    }

    /// The flags with the bits of `flag` set when `on`, cleared otherwise;
    /// the other bits stay.
    pub fn with_flag(self, flag: u8, on: bool) -> (f: FontFlags)
        ensures
            f.0 == (if on { self.0 | flag } else { self.0 & !flag }),
    {
        if on {
            FontFlags(self.0 | flag)
        } else {
            FontFlags(self.0 & !flag)
        }
    }
}

/// Setting a single-bit flag and reading it back gives what was set, and the
/// other flags keep their values.
pub proof fn lemma_flag_set_then_get(bits: u8, flag: u8, on: bool, other: u8)
    requires
        flag == 0x01u8 || flag == 0x02u8 || flag == 0x04u8 || flag == 0x08u8 || flag == 0x10u8
            || flag == 0x20u8,
        other & flag == 0,
    ensures
        ((if on { bits | flag } else { bits & !flag }) & flag != 0) == on,
        (if on { bits | flag } else { bits & !flag }) & other == bits & other,
{
    if on {
        assert((bits | flag) & flag != 0 && (bits | flag) & other == bits & other) by (bit_vector)
            requires
                flag != 0,
                other & flag == 0,
        ;
    } else {
        assert((bits & !flag) & flag == 0 && (bits & !flag) & other == bits & other) by (bit_vector)
            requires
                other & flag == 0,
        ;
    }
}

/// A font size is valid when it is a finite number that is not negative
/// (`-0.0` counts as zero).
pub open spec fn spec_is_valid_size(size: Scalar) -> bool {
    spec_is_finite(size) && (size & 0x8000_0000u32 == 0 || spec_is_zero(size))
}

/// Whether `size` is a valid font size: finite and not negative.
pub fn is_valid_size(size: Scalar) -> (r: bool)
    ensures
        r == spec_is_valid_size(size),
{
    is_finite(size) && (size & 0x8000_0000u32 == 0 || is_zero(size))
}

/// The number of glyphs a buffer of `len` glyphs is offered as: its length,
/// at most the largest `int`.
pub fn glyph_buffer_capacity(len: usize) -> (r: i32)
    ensures
        r == (if len <= i32::MAX { len as int } else { i32::MAX as int }),
{
    if len <= 0x7fff_ffffusize {
        len as i32
    } else {
        0x7fff_ffffi32
    }
}

/// Whether the widths and bounds buffers given to a width query each have as
/// many entries as there are glyphs, and the glyph count fits an `int`.
pub fn widths_bounds_lengths_are_valid(
    count: usize,
    widths_len: Option<usize>,
    bounds_len: Option<usize>,
) -> (r: bool)
    ensures
        r == (count <= i32::MAX && (widths_len matches Some(w) ==> w == count) && (
        bounds_len matches Some(b) ==> b == count)),
{
    count <= 0x7fff_ffffusize && match widths_len {
        Some(w) => w == count,
        None => true,
    } && match bounds_len {
        Some(b) => b == count,
        None => true,
    }
}

} // verus!

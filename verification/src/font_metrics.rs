//! The metrics of a font, and which of them the font supplies.
use vstd::prelude::*;
use crate::scalar::{Scalar, spec_scalar_eq, scalar_eq};

verus! {

/// Which of the optional [`FontMetrics`] are valid, as a set of bits.
#[derive(Clone, Copy, PartialEq, Eq, Structural, PartialOrd, Ord, Hash, Debug)]
pub struct Flags {
    bits: u32,
}

/// The underline thickness is valid.
pub const UNDERLINE_THICKNESS_IS_VALID_BIT: u32 = 0x01u32;
/// The underline position is valid.
pub const UNDERLINE_POSITION_IS_VALID_BIT: u32 = 0x02u32;
/// The strikeout thickness is valid.
pub const STRIKEOUT_THICKNESS_IS_VALID_BIT: u32 = 0x04u32;
/// The strikeout position is valid.
pub const STRIKEOUT_POSITION_IS_VALID_BIT: u32 = 0x08u32;
/// The bounds (`top`, `bottom`, `x_min`, `x_max`) are not valid.
pub const BOUNDS_INVALID_BIT: u32 = 0x10u32;
/// Every bit a [`Flags`] may hold.
pub const ALL_FLAG_BITS: u32 = 0x1fu32;

impl Flags {
    /// The bits of the set.
    pub closed spec fn spec_bits(self) -> u32 {
        self.bits
    }

    /// Two sets with the same bits are the same set.
    pub proof fn lemma_eq_from_bits(a: Flags, b: Flags)
        requires
            a.spec_bits() == b.spec_bits(),
        ensures
            a == b,
    {
    }

    /// The empty set.
    pub fn empty() -> (f: Flags)
        ensures
            f.spec_bits() == 0,
    {
        Flags { bits: 0 }
    }

    /// The underline thickness is valid.
    pub fn underline_thickness_is_valid() -> (f: Flags)
        ensures
            f.spec_bits() == UNDERLINE_THICKNESS_IS_VALID_BIT,
    {
        Flags { bits: UNDERLINE_THICKNESS_IS_VALID_BIT }
    }

    /// The underline position is valid.
    pub fn underline_position_is_valid() -> (f: Flags)
        ensures
            f.spec_bits() == UNDERLINE_POSITION_IS_VALID_BIT,
    {
        Flags { bits: UNDERLINE_POSITION_IS_VALID_BIT }
    }

    /// The strikeout thickness is valid.
    pub fn strikeout_thickness_is_valid() -> (f: Flags)
        ensures
            f.spec_bits() == STRIKEOUT_THICKNESS_IS_VALID_BIT,
    {
        Flags { bits: STRIKEOUT_THICKNESS_IS_VALID_BIT }
    }

    /// The strikeout position is valid.
    pub fn strikeout_position_is_valid() -> (f: Flags)
        ensures
            f.spec_bits() == STRIKEOUT_POSITION_IS_VALID_BIT,
    {
        Flags { bits: STRIKEOUT_POSITION_IS_VALID_BIT }
    }

    /// The bounds are not valid.
    pub fn bounds_invalid() -> (f: Flags)
        ensures
            f.spec_bits() == BOUNDS_INVALID_BIT,
    {
        Flags { bits: BOUNDS_INVALID_BIT }
    }

    /// The bits of the set.
    pub fn bits(&self) -> (r: u32)
        ensures
            r == self.spec_bits(),
    {
        self.bits
    }

    /// The set of the known bits of `bits`; the others are dropped.
    pub fn from_bits_truncate(bits: u32) -> (f: Flags)
        ensures
            f.spec_bits() == bits & 0x1f,
    {
        Flags { bits: bits & ALL_FLAG_BITS }
    }

    /// Every bit of `other` is in `self`.
    pub fn contains(&self, other: Flags) -> (r: bool)
        ensures
            r == (self.spec_bits() & other.spec_bits() == other.spec_bits()),
    {
        self.bits & other.bits == other.bits
    }

    /// The bits of either set.
    pub fn union(self, other: Flags) -> (f: Flags)
        ensures
            f.spec_bits() == self.spec_bits() | other.spec_bits(),
    {
        Flags { bits: self.bits | other.bits }
    }
}

impl Default for Flags {
    fn default() -> (f: Flags)
        ensures
            f.spec_bits() == 0,
    {
        Flags { bits: 0 }
    }
}

/// The values of a [`FontMetrics`], valid or not, with its flags as bits.
pub struct FontMetricsModel {
    pub flags: u32,
    pub top: Scalar,
    pub ascent: Scalar,
    pub descent: Scalar,
    pub bottom: Scalar,
    pub leading: Scalar,
    pub avg_char_width: Scalar,
    pub max_char_width: Scalar,
    pub x_min: Scalar,
    pub x_max: Scalar,
    pub x_height: Scalar,
    pub cap_height: Scalar,
    pub underline_thickness: Scalar,
    pub underline_position: Scalar,
    pub strikeout_thickness: Scalar,
    pub strikeout_position: Scalar,
}

/// The metrics of a font.  The underline and strikeout metrics are optional:
/// each is only valid when its flag is set.
#[derive(Clone, Copy, Debug)]
pub struct FontMetrics {
    flags: Flags,
    pub top: Scalar,
    pub ascent: Scalar,
    pub descent: Scalar,
    pub bottom: Scalar,
    pub leading: Scalar,
    pub avg_char_width: Scalar,
    pub max_char_width: Scalar,
    pub x_min: Scalar,
    pub x_max: Scalar,
    pub x_height: Scalar,
    pub cap_height: Scalar,
    underline_thickness: Scalar,
    underline_position: Scalar,
    strikeout_thickness: Scalar,
    strikeout_position: Scalar,
}

/// `value` when `flag` is set in `flags`, else nothing.
pub open spec fn spec_if_valid(flags: u32, flag: u32, value: Scalar) -> Option<Scalar> {
    if flags & flag == flag {
        Some(value)
    } else {
        None
    }
}

impl View for FontMetrics {
    type V = FontMetricsModel;

    /// All values, valid or not, and the flags.
    closed spec fn view(&self) -> FontMetricsModel {
        FontMetricsModel {
            flags: self.flags.spec_bits(),
            top: self.top,
            ascent: self.ascent,
            descent: self.descent,
            bottom: self.bottom,
            leading: self.leading,
            avg_char_width: self.avg_char_width,
            max_char_width: self.max_char_width,
            x_min: self.x_min,
            x_max: self.x_max,
            x_height: self.x_height,
            cap_height: self.cap_height,
            underline_thickness: self.underline_thickness,
            underline_position: self.underline_position,
            strikeout_thickness: self.strikeout_thickness,
            strikeout_position: self.strikeout_position,
        }
    }
}

impl FontMetrics {
    /// The validity flags.
    pub open spec fn spec_flags(self) -> u32 {
        self@.flags
    }

    /// The metrics of the given values, in the order of the fields.
    #[allow(clippy::too_many_arguments)]
    pub fn from_values(
        flags: Flags,
        top: Scalar,
        ascent: Scalar,
        descent: Scalar,
        bottom: Scalar,
        leading: Scalar,
        avg_char_width: Scalar,
        max_char_width: Scalar,
        x_min: Scalar,
        x_max: Scalar,
        x_height: Scalar,
        cap_height: Scalar,
        underline_thickness: Scalar,
        underline_position: Scalar,
        strikeout_thickness: Scalar,
        strikeout_position: Scalar,
    ) -> (m: FontMetrics)
        ensures
            m@ == (FontMetricsModel {
                flags: flags.spec_bits(),
                top,
                ascent,
                descent,
                bottom,
                leading,
                avg_char_width,
                max_char_width,
                x_min,
                x_max,
                x_height,
                cap_height,
                underline_thickness,
                underline_position,
                strikeout_thickness,
                strikeout_position,
            }),
    {
        FontMetrics {
            flags,
            top,
            ascent,
            descent,
            bottom,
            leading,
            avg_char_width,
            max_char_width,
            x_min,
            x_max,
            x_height,
            cap_height,
            underline_thickness,
            underline_position,
            strikeout_thickness,
            strikeout_position,
        }
    }

    /// The validity flags.
    pub fn flags(&self) -> (f: Flags)
        ensures
            f.spec_bits() == self.spec_flags(),
    {
        self.flags
    }

    /// The underline thickness, if the font supplies it.
    pub fn underline_thickness(&self) -> (r: Option<Scalar>)
        ensures
            r == spec_if_valid(self.spec_flags(), UNDERLINE_THICKNESS_IS_VALID_BIT, self@.underline_thickness),
    {
        self.if_valid(Flags::underline_thickness_is_valid(), self.underline_thickness)
    }

    /// The underline position, if the font supplies it.
    pub fn underline_position(&self) -> (r: Option<Scalar>)
        ensures
            r == spec_if_valid(self.spec_flags(), UNDERLINE_POSITION_IS_VALID_BIT, self@.underline_position),
    {
        self.if_valid(Flags::underline_position_is_valid(), self.underline_position)
    }

    /// The strikeout thickness, if the font supplies it.
    pub fn strikeout_thickness(&self) -> (r: Option<Scalar>)
        ensures
            r == spec_if_valid(self.spec_flags(), STRIKEOUT_THICKNESS_IS_VALID_BIT, self@.strikeout_thickness),
    {
        self.if_valid(Flags::strikeout_thickness_is_valid(), self.strikeout_thickness)
    }

    /// The strikeout position, if the font supplies it.
    pub fn strikeout_position(&self) -> (r: Option<Scalar>)
        ensures
            r == spec_if_valid(self.spec_flags(), STRIKEOUT_POSITION_IS_VALID_BIT, self@.strikeout_position),
    {
        self.if_valid(Flags::strikeout_position_is_valid(), self.strikeout_position)
    }

    /// `value` when every bit of `flag` is set, else nothing.
    fn if_valid(&self, flag: Flags, value: Scalar) -> (r: Option<Scalar>)
        ensures
            r == spec_if_valid(self.spec_flags(), flag.spec_bits(), value),
    {
        if self.flags.contains(flag) {
            Some(value)
        } else {
            None
        }
    }

    /// Whether the bounds (`top`, `bottom`, `x_min`, `x_max`) are valid.
    pub fn has_bounds(&self) -> (r: bool)
        ensures
            r == (self.spec_flags() & BOUNDS_INVALID_BIT != BOUNDS_INVALID_BIT),
    {
        !self.flags.contains(Flags::bounds_invalid())
    }
}

impl Default for FontMetrics {
    fn default() -> (m: FontMetrics)
        ensures
            m@ == (FontMetricsModel {
                flags: 0,
                top: 0,
                ascent: 0,
                descent: 0,
                bottom: 0,
                leading: 0,
                avg_char_width: 0,
                max_char_width: 0,
                x_min: 0,
                x_max: 0,
                x_height: 0,
                cap_height: 0,
                underline_thickness: 0,
                underline_position: 0,
                strikeout_thickness: 0,
                strikeout_position: 0,
            }),
    {
        FontMetrics::from_values(Flags::empty(), 0, 0, 0, 0, 0, 0, 0, 0, 0, 0, 0, 0, 0, 0, 0)
    }
}

/// Numeric equality of two metrics: the flags are equal and each scalar is
/// equal as a number (no NaN equals anything; the two zeros are equal).
pub open spec fn spec_metrics_eq(a: FontMetrics, b: FontMetrics) -> bool {
    &&& a.spec_flags() == b.spec_flags()
    &&& spec_scalar_eq(a@.top, b@.top) && spec_scalar_eq(a@.ascent, b@.ascent)
    &&& spec_scalar_eq(a@.descent, b@.descent) && spec_scalar_eq(a@.bottom, b@.bottom)
    &&& spec_scalar_eq(a@.leading, b@.leading) && spec_scalar_eq(a@.avg_char_width, b@.avg_char_width)
    &&& spec_scalar_eq(a@.max_char_width, b@.max_char_width) && spec_scalar_eq(a@.x_min, b@.x_min)
    &&& spec_scalar_eq(a@.x_max, b@.x_max) && spec_scalar_eq(a@.x_height, b@.x_height)
    &&& spec_scalar_eq(a@.cap_height, b@.cap_height)
    &&& spec_scalar_eq(a@.underline_thickness, b@.underline_thickness)
    &&& spec_scalar_eq(a@.underline_position, b@.underline_position)
    &&& spec_scalar_eq(a@.strikeout_thickness, b@.strikeout_thickness)
    &&& spec_scalar_eq(a@.strikeout_position, b@.strikeout_position)
}

impl PartialEq for FontMetrics {
    fn eq(&self, other: &Self) -> (r: bool) {
        self.flags.bits == other.flags.bits && scalar_eq(self.top, other.top) && scalar_eq(
            self.ascent,
            other.ascent,
        ) && scalar_eq(self.descent, other.descent) && scalar_eq(self.bottom, other.bottom)
            && scalar_eq(self.leading, other.leading) && scalar_eq(
            self.avg_char_width,
            other.avg_char_width,
        ) && scalar_eq(self.max_char_width, other.max_char_width) && scalar_eq(
            self.x_min,
            other.x_min,
        ) && scalar_eq(self.x_max, other.x_max) && scalar_eq(self.x_height, other.x_height)
            && scalar_eq(self.cap_height, other.cap_height) && scalar_eq(
            self.underline_thickness,
            other.underline_thickness,
        ) && scalar_eq(self.underline_position, other.underline_position) && scalar_eq(
            self.strikeout_thickness,
            other.strikeout_thickness,
        ) && scalar_eq(self.strikeout_position, other.strikeout_position)
    }
}

impl vstd::std_specs::cmp::PartialEqSpecImpl for FontMetrics {
    open spec fn obeys_eq_spec() -> bool {
        true
    }

    open spec fn eq_spec(&self, other: &Self) -> bool {
        spec_metrics_eq(*self, *other)
    }
}

} // verus!

//! Font weights, widths, slants and the styles they make.
use vstd::prelude::*;

verus! {

/// Wrapper type of a font weight.
///
/// `Weight::from()` makes one from an `i32`; `*weight` gives the wrapped value back.
#[derive(Clone, Copy, PartialEq, Eq, Structural, PartialOrd, Ord, Debug)]
pub struct Weight(i32);

impl Weight {
    /// The wrapped value.
    pub closed spec fn spec_value(self) -> i32 {
        self.0
    }

    /// The weight with the wrapped value `v`.
    pub closed spec fn spec_new(v: i32) -> Weight {
        Weight(v)
    }

    /// The value of the weight made from `v` is `v`.
    pub proof fn lemma_spec_new(v: i32)
        ensures
            Weight::spec_new(v).spec_value() == v,
    {
    }

    /// Two weights with the same value are the same.
    pub proof fn lemma_eq_from_value(a: Weight, b: Weight)
        requires
            a.spec_value() == b.spec_value(),
        ensures
            a == b,
    {
    }

    /// Invisible weight, 0.
    pub fn invisible() -> (r: Weight)
        ensures
            r.spec_value() == 0,
    {
        Weight(0)
    }

    /// Thin weight, 100.
    pub fn thin() -> (r: Weight)
        ensures
            r.spec_value() == 100,
    {
        Weight(100)
    }

    /// Extra light weight, 200.
    pub fn extra_light() -> (r: Weight)
        ensures
            r.spec_value() == 200,
    {
        Weight(200)
    }

    /// Light weight, 300.
    pub fn light() -> (r: Weight)
        ensures
            r.spec_value() == 300,
    {
        Weight(300)
    }

    /// Normal weight, 400.
    pub fn normal() -> (r: Weight)
        ensures
            r.spec_value() == 400,
    {
        Weight(400)
    }

    /// Medium weight, 500.
    pub fn medium() -> (r: Weight)
        ensures
            r.spec_value() == 500,
    {
        Weight(500)
    }

    /// Semi-bold weight, 600.
    pub fn semi_bold() -> (r: Weight)
        ensures
            r.spec_value() == 600,
    {
        Weight(600)
    }

    /// Bold weight, 700.
    pub fn bold() -> (r: Weight)
        ensures
            r.spec_value() == 700,
    {
        Weight(700)
    }

    /// Extra bold weight, 800.
    pub fn extra_bold() -> (r: Weight)
        ensures
            r.spec_value() == 800,
    {
        Weight(800)
    }

    /// Black weight, 900.
    pub fn black() -> (r: Weight)
        ensures
            r.spec_value() == 900,
    {
        Weight(900)
    }

    /// Extra black weight, 1000.
    pub fn extra_black() -> (r: Weight)
        ensures
            r.spec_value() == 1000,
    {
        Weight(1000)
    }
}

impl From<i32> for Weight {
    fn from(v: i32) -> (r: Weight) {
        Weight(v)
    }
}

impl vstd::std_specs::convert::FromSpecImpl<i32> for Weight {
    open spec fn obeys_from_spec() -> bool {
        true
    }

    open spec fn from_spec(v: i32) -> Weight {
        Weight::spec_new(v)
    }
}

impl core::ops::Deref for Weight {
    type Target = i32;

    fn deref(&self) -> (r: &i32)
        ensures
            *r == self.spec_value(),
    {
        &self.0
    }
}

/// Wrapper type of a font width.
///
/// `Width::from()` makes one from an `i32`; `*width` gives the wrapped value back.
#[derive(Clone, Copy, PartialEq, Eq, Structural, PartialOrd, Ord, Debug)]
pub struct Width(i32);

impl Width {
    /// The wrapped value.
    pub closed spec fn spec_value(self) -> i32 {
        self.0
    }

    /// The width with the wrapped value `v`.
    pub closed spec fn spec_new(v: i32) -> Width {
        Width(v)
    }

    /// The value of the width made from `v` is `v`.
    pub proof fn lemma_spec_new(v: i32)
        ensures
            Width::spec_new(v).spec_value() == v,
    {
    }

    /// Two widths with the same value are the same.
    pub proof fn lemma_eq_from_value(a: Width, b: Width)
        requires
            a.spec_value() == b.spec_value(),
        ensures
            a == b,
    {
    }

    /// Ultra condensed width, 1.
    pub fn ultra_condensed() -> (r: Width)
        ensures
            r.spec_value() == 1,
    {
        Width(1)
    }

    /// Extra condensed width, 2.
    pub fn extra_condensed() -> (r: Width)
        ensures
            r.spec_value() == 2,
    {
        Width(2)
    }

    /// Condensed width, 3.
    pub fn condensed() -> (r: Width)
        ensures
            r.spec_value() == 3,
    {
        Width(3)
    }

    /// Semi-condensed width, 4.
    pub fn semi_condensed() -> (r: Width)
        ensures
            r.spec_value() == 4,
    {
        Width(4)
    }

    /// Normal width, 5.
    pub fn normal() -> (r: Width)
        ensures
            r.spec_value() == 5,
    {
        Width(5)
    }

    /// Semi-expanded width, 6.
    pub fn semi_expanded() -> (r: Width)
        ensures
            r.spec_value() == 6,
    {
        Width(6)
    }

    /// Expanded width, 7.
    pub fn expanded() -> (r: Width)
        ensures
            r.spec_value() == 7,
    {
        Width(7)
    }

    /// Extra expanded width, 8.
    pub fn extra_expanded() -> (r: Width)
        ensures
            r.spec_value() == 8,
    {
        Width(8)
    }

    /// Ultra expanded width, 9.
    pub fn ultra_expanded() -> (r: Width)
        ensures
            r.spec_value() == 9,
    {
        Width(9)
    }
}

impl From<i32> for Width {
    fn from(v: i32) -> (r: Width) {
        Width(v)
    }
}

impl vstd::std_specs::convert::FromSpecImpl<i32> for Width {
    open spec fn obeys_from_spec() -> bool {
        true
    }

    open spec fn from_spec(v: i32) -> Width {
        Width::spec_new(v)
    }
}

impl core::ops::Deref for Width {
    type Target = i32;

    fn deref(&self) -> (r: &i32)
        ensures
            *r == self.spec_value(),
    {
        &self.0
    }
}


/// The slant of a font.
#[derive(Clone, Copy, PartialEq, Eq, Structural, Debug)]
pub enum Slant {
    Upright,
    Italic,
    Oblique,
}

/// `v` clamped to `[lo, hi]`.
pub open spec fn spec_clamp(v: int, lo: int, hi: int) -> int {
    if v < lo {
        lo
    } else if v > hi {
        hi
    } else {
        v
    }
}

/// The style of a font: its weight, width and slant.  The weight is kept in
/// `[0, 1000]` (invisible to extra black) and the width in `[1, 9]` (ultra
/// condensed to ultra expanded); values outside are clamped.
#[derive(Clone, Copy, PartialEq, Eq, Structural, Debug)]
pub struct FontStyle {
    weight: i32,
    width: i32,
    slant: Slant,
}

impl FontStyle {
    /// The weight, width and slant of the style.
    pub closed spec fn spec_parts(self) -> (i32, i32, Slant) {
        (self.weight, self.width, self.slant)
    }

    /// The style of the given weight, width and slant, each clamped to its
    /// range.
    pub fn new(weight: Weight, width: Width, slant: Slant) -> (s: FontStyle)
        ensures
            s.spec_parts().0 == spec_clamp(weight.spec_value() as int, 0, 1000),
            s.spec_parts().1 == spec_clamp(width.spec_value() as int, 1, 9),
            s.spec_parts().2 == slant,
    {
        let w = weight.0;
        let d = width.0;
        FontStyle {
            weight: if w < 0 { 0 } else if w > 1000 { 1000 } else { w },
            width: if d < 1 { 1 } else if d > 9 { 9 } else { d },
            slant,
        }
    }

    /// The weight.
    pub fn weight(self) -> (w: Weight)
        ensures
            w.spec_value() == self.spec_parts().0,
    {
        Weight(self.weight)
    }

    /// The width.
    pub fn width(self) -> (w: Width)
        ensures
            w.spec_value() == self.spec_parts().1,
    {
        Width(self.width)
    }

    /// The slant.
    pub fn slant(self) -> (s: Slant)
        ensures
            s == self.spec_parts().2,
    {
        self.slant
    }

    /// Normal weight, normal width, upright.
    pub fn normal() -> (s: FontStyle)
        ensures
            s.spec_parts() == (400i32, 5i32, Slant::Upright),
    {
        FontStyle::new(Weight::normal(), Width::normal(), Slant::Upright)
    }

    /// Bold weight, normal width, upright.
    pub fn bold() -> (s: FontStyle)
        ensures
            s.spec_parts() == (700i32, 5i32, Slant::Upright),
    {
        FontStyle::new(Weight::bold(), Width::normal(), Slant::Upright)
    }

    /// Normal weight, normal width, italic.
    pub fn italic() -> (s: FontStyle)
        ensures
            s.spec_parts() == (400i32, 5i32, Slant::Italic),
    {
        FontStyle::new(Weight::normal(), Width::normal(), Slant::Italic)
    }

    /// Bold weight, normal width, italic.
    pub fn bold_italic() -> (s: FontStyle)
        ensures
            s.spec_parts() == (700i32, 5i32, Slant::Italic),
    {
        FontStyle::new(Weight::bold(), Width::normal(), Slant::Italic)
    }
}

impl Default for FontStyle {
    /// The normal style.
    fn default() -> (s: FontStyle)
        ensures
            s.spec_parts() == (400i32, 5i32, Slant::Upright),
    {
        FontStyle::normal()
    }
}

/// A style keeps the weight, width and slant it is made with when they are in
/// range.
pub proof fn lemma_style_keeps_values_in_range(weight: i32, width: i32)
    requires
        0 <= weight <= 1000,
        1 <= width <= 9,
    ensures
        spec_clamp(weight as int, 0, 1000) == weight,
        spec_clamp(width as int, 1, 9) == width,
{
}

/// Clamping is idempotent: a style made from the parts of a style has the
/// same parts.
pub proof fn lemma_clamp_idempotent(v: int, lo: int, hi: int)
    requires
        lo <= hi,
    ensures
        spec_clamp(spec_clamp(v, lo, hi), lo, hi) == spec_clamp(v, lo, hi),
        lo <= spec_clamp(v, lo, hi) <= hi,
{
}

} // verus!

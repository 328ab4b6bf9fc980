//! 32-bit ARGB colors and their 8-bit components.
use vstd::prelude::*;

verus! {

/// A color packed as `0xAARRGGBB`: alpha in the top byte, then red, green
/// and blue.
#[derive(Clone, Copy, PartialEq, Eq, Structural, Debug)]
pub struct Color(u32);

/// The packed value of the four components.
pub open spec fn spec_argb(a: u8, r: u8, g: u8, b: u8) -> u32 {
    (a as u32) << 24u32 | (r as u32) << 16u32 | (g as u32) << 8u32 | (b as u32)
}

/// Component `shift / 8` of a packed color, counted from the blue byte.
pub open spec fn spec_component(c: u32, shift: u32) -> u8 {
    (c >> shift) as u8
}

impl Color {
    /// The packed `0xAARRGGBB` value.
    pub closed spec fn spec_value(self) -> u32 {
        self.0
    }

    /// The color with the packed value `argb`.
    pub closed spec fn spec_new(argb: u32) -> Color {
        Color(argb)
    }

    /// The packed value of the color made from `argb` is `argb`.
    pub proof fn lemma_spec_new(argb: u32)
        ensures
            Color::spec_new(argb).spec_value() == argb,
    {
    }

    /// Two colors with the same packed value are the same color.
    pub proof fn lemma_eq_from_value(a: Color, b: Color)
        requires
            a.spec_value() == b.spec_value(),
        ensures
            a == b,
    {
    }

    /// The color with the packed value `argb`.
    pub fn new(argb: u32) -> (c: Color)
        ensures
            c.spec_value() == argb,
            c == Color::spec_new(argb),
    {
        Color(argb)
    }

    /// The packed `0xAARRGGBB` value.
    pub fn value(self) -> (v: u32)
        ensures
            v == self.spec_value(),
    {
        self.0
    }

    /// The color of the four components.
    pub fn from_argb(a: u8, r: u8, g: u8, b: u8) -> (c: Color)
        ensures
            c.spec_value() == spec_argb(a, r, g, b),
            c == Color::spec_new(spec_argb(a, r, g, b)),
    {
        Color(((a as u32) << 24u32) | ((r as u32) << 16u32) | ((g as u32) << 8u32) | (b as u32))
    }

    /// The opaque color of the three components.
    pub fn from_rgb(r: u8, g: u8, b: u8) -> (c: Color)
        ensures
            c.spec_value() == spec_argb(0xff, r, g, b),
            c == Color::spec_new(spec_argb(0xff, r, g, b)),
    {
        Self::from_argb(0xff, r, g, b)
    }

    /// The alpha component.
    pub fn a(self) -> (v: u8)
        ensures
            v == spec_component(self.spec_value(), 24),
    {
        (self.0 >> 24u32) as u8
    }

    /// The red component.
    pub fn r(self) -> (v: u8)
        ensures
            v == spec_component(self.spec_value(), 16),
    {
        (self.0 >> 16u32) as u8
    }

    /// The green component.
    pub fn g(self) -> (v: u8)
        ensures
            v == spec_component(self.spec_value(), 8),
    {
        (self.0 >> 8u32) as u8
    }

    /// The blue component.
    pub fn b(self) -> (v: u8)
        ensures
            v == spec_component(self.spec_value(), 0),
    {
        (self.0 >> 0u32) as u8
    }

    /// The same color with alpha `a`.
    #[must_use]
    pub fn with_a(self, a: u8) -> (c: Color)
        ensures
            c.spec_value() == spec_argb(
                a,
                spec_component(self.spec_value(), 16),
                spec_component(self.spec_value(), 8),
                spec_component(self.spec_value(), 0),
            ),
    {
        Self::from_argb(a, self.r(), self.g(), self.b())
    }

    /// The red, green and blue components.
    pub fn to_rgb(self) -> (rgb: RGB)
        ensures
            rgb.r == spec_component(self.spec_value(), 16),
            rgb.g == spec_component(self.spec_value(), 8),
            rgb.b == spec_component(self.spec_value(), 0),
    {
        RGB { r: self.r(), g: self.g(), b: self.b() }
    }

    /// The bitwise or of the packed values.
    pub fn bit_or(self, rhs: Color) -> (c: Color)
        ensures
            c.spec_value() == self.spec_value() | rhs.spec_value(),
            c == Color::spec_new(self.spec_value() | rhs.spec_value()),
    {
        Color(self.0 | rhs.0)
    }

    /// The bitwise and of the packed values.
    pub fn bit_and(self, rhs: Color) -> (c: Color)
        ensures
            c.spec_value() == self.spec_value() & rhs.spec_value(),
            c == Color::spec_new(self.spec_value() & rhs.spec_value()),
    {
        Color(self.0 & rhs.0)
    }

    /// Fully transparent black, `0x00000000`.
    pub fn transparent() -> (c: Color)
        ensures
            c.spec_value() == 0x0000_0000u32,
    {
        Color(0x0000_0000)
    }

    /// Opaque black, `0xFF000000`.
    pub fn black() -> (c: Color)
        ensures
            c.spec_value() == 0xff00_0000u32,
    {
        Color(0xff00_0000)
    }

    /// Opaque dark gray, `0xFF444444`.
    pub fn dark_gray() -> (c: Color)
        ensures
            c.spec_value() == 0xff44_4444u32,
    {
        Color(0xff44_4444)
    }

    /// Opaque gray, `0xFF888888`.
    pub fn gray() -> (c: Color)
        ensures
            c.spec_value() == 0xff88_8888u32,
    {
        Color(0xff88_8888)
    }

    /// Opaque light gray, `0xFFCCCCCC`.
    pub fn light_gray() -> (c: Color)
        ensures
            c.spec_value() == 0xffcc_ccccu32,
    {
        Color(0xffcc_cccc)
    }

    /// Opaque white, `0xFFFFFFFF`.
    pub fn white() -> (c: Color)
        ensures
            c.spec_value() == 0xffff_ffffu32,
    {
        Color(0xffff_ffff)
    }

    /// Opaque red, `0xFFFF0000`.
    pub fn red() -> (c: Color)
        ensures
            c.spec_value() == 0xffff_0000u32,
    {
        Color(0xffff_0000)
    }

    /// Opaque green, `0xFF00FF00`.
    pub fn green() -> (c: Color)
        ensures
            c.spec_value() == 0xff00_ff00u32,
    {
        Color(0xff00_ff00)
    }

    /// Opaque blue, `0xFF0000FF`.
    pub fn blue() -> (c: Color)
        ensures
            c.spec_value() == 0xff00_00ffu32,
    {
        Color(0xff00_00ff)
    }

    /// Opaque yellow, `0xFFFFFF00`.
    pub fn yellow() -> (c: Color)
        ensures
            c.spec_value() == 0xffff_ff00u32,
    {
        Color(0xffff_ff00)
    }

    /// Opaque cyan, `0xFF00FFFF`.
    pub fn cyan() -> (c: Color)
        ensures
            c.spec_value() == 0xff00_ffffu32,
    {
        Color(0xff00_ffff)
    }

    /// Opaque magenta, `0xFFFF00FF`.
    pub fn magenta() -> (c: Color)
        ensures
            c.spec_value() == 0xffff_00ffu32,
    {
        Color(0xffff_00ff)
    }
}

impl Default for Color {
    fn default() -> (c: Color)
        ensures
            c.spec_value() == 0,
    {
        Color(0)
    }
}

impl core::ops::BitOr for Color {
    type Output = Color;

    fn bitor(self, rhs: Color) -> (c: Color) {
        self.bit_or(rhs)
    }
}

impl vstd::std_specs::ops::BitOrSpecImpl for Color {
    open spec fn obeys_bitor_spec() -> bool {
        true
    }

    open spec fn bitor_req(self, rhs: Color) -> bool {
        true
    }

    open spec fn bitor_spec(self, rhs: Color) -> Color {
        Color::spec_new(self.spec_value() | rhs.spec_value())
    }
}

impl core::ops::BitAnd for Color {
    type Output = Color;

    fn bitand(self, rhs: Color) -> (c: Color) {
        self.bit_and(rhs)
    }
}

impl vstd::std_specs::ops::BitAndSpecImpl for Color {
    open spec fn obeys_bitand_spec() -> bool {
        true
    }

    open spec fn bitand_req(self, rhs: Color) -> bool {
        true
    }

    open spec fn bitand_spec(self, rhs: Color) -> Color {
        Color::spec_new(self.spec_value() & rhs.spec_value())
    }
}

impl core::ops::BitOr<u32> for Color {
    type Output = Color;

    fn bitor(self, rhs: u32) -> (c: Color) {
        self.bit_or(Color::new(rhs))
    }
}

impl vstd::std_specs::ops::BitOrSpecImpl<u32> for Color {
    open spec fn obeys_bitor_spec() -> bool {
        true
    }

    open spec fn bitor_req(self, rhs: u32) -> bool {
        true
    }

    open spec fn bitor_spec(self, rhs: u32) -> Color {
        Color::spec_new(self.spec_value() | rhs)
    }
}

impl core::ops::BitAnd<u32> for Color {
    type Output = Color;

    fn bitand(self, rhs: u32) -> (c: Color) {
        self.bit_and(Color::new(rhs))
    }
}

impl vstd::std_specs::ops::BitAndSpecImpl<u32> for Color {
    open spec fn obeys_bitand_spec() -> bool {
        true
    }

    open spec fn bitand_req(self, rhs: u32) -> bool {
        true
    }

    open spec fn bitand_spec(self, rhs: u32) -> Color {
        Color::spec_new(self.spec_value() & rhs)
    }
}

impl From<u32> for Color {
    fn from(argb: u32) -> (c: Color) {
        Color::new(argb)
    }
}

impl vstd::std_specs::convert::FromSpecImpl<u32> for Color {
    open spec fn obeys_from_spec() -> bool {
        true
    }

    open spec fn from_spec(argb: u32) -> Color {
        Color::spec_new(argb)
    }
}

impl From<RGB> for Color {
    fn from(rgb: RGB) -> (c: Color) {
        Color::from_rgb(rgb.r, rgb.g, rgb.b)
    }
}

impl vstd::std_specs::convert::FromSpecImpl<RGB> for Color {
    open spec fn obeys_from_spec() -> bool {
        true
    }

    open spec fn from_spec(rgb: RGB) -> Color {
        Color::spec_new(spec_argb(0xff, rgb.r, rgb.g, rgb.b))
    }
}

/// The red, green and blue components of a color.
#[derive(Clone, Copy, PartialEq, Eq, Structural, Debug)]
pub struct RGB {
    pub r: u8,
    pub g: u8,
    pub b: u8,
}

/// Each component of a packed color is the byte it was packed from.
pub proof fn lemma_components_of_argb(a: u8, r: u8, g: u8, b: u8)
    ensures
        spec_component(spec_argb(a, r, g, b), 24) == a,
        spec_component(spec_argb(a, r, g, b), 16) == r,
        spec_component(spec_argb(a, r, g, b), 8) == g,
        spec_component(spec_argb(a, r, g, b), 0) == b,
{
    assert(((((a as u32) << 24u32 | (r as u32) << 16u32 | (g as u32) << 8u32 | (b as u32)) >> 24u32) as u8) == a
        && ((((a as u32) << 24u32 | (r as u32) << 16u32 | (g as u32) << 8u32 | (b as u32)) >> 16u32) as u8) == r
        && ((((a as u32) << 24u32 | (r as u32) << 16u32 | (g as u32) << 8u32 | (b as u32)) >> 8u32) as u8) == g
        && ((((a as u32) << 24u32 | (r as u32) << 16u32 | (g as u32) << 8u32 | (b as u32)) >> 0u32) as u8) == b)
        by (bit_vector);
}

/// Packing the four components of a color gives the color back.
pub proof fn lemma_argb_of_components(c: u32)
    ensures
        spec_argb(spec_component(c, 24), spec_component(c, 16), spec_component(c, 8), spec_component(c, 0)) == c,
{
    assert(((((c >> 24u32) as u8) as u32) << 24u32 | (((c >> 16u32) as u8) as u32) << 16u32 | (((c >> 8u32) as u8) as u32) << 8u32 | (((c >> 0u32) as u8) as u32)) == c)
        by (bit_vector);
}

impl From<(u8, u8, u8)> for RGB {
    fn from(rgb: (u8, u8, u8)) -> (c: RGB) {
        RGB { r: rgb.0, g: rgb.1, b: rgb.2 }
    }
}

impl vstd::std_specs::convert::FromSpecImpl<(u8, u8, u8)> for RGB {
    open spec fn obeys_from_spec() -> bool {
        true
    }

    open spec fn from_spec(rgb: (u8, u8, u8)) -> RGB {
        RGB { r: rgb.0, g: rgb.1, b: rgb.2 }
    }
}

} // verus!

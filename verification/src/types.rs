//! Small value types shared by the APIs: tags, alpha types, integer
//! rectangles, points and rotation-scale transforms.
use vstd::prelude::*;
use crate::scalar::Scalar;

verus! {

/// A four-byte tag, such as the name of a variation axis (`'wght'`), packed
/// big-endian into a `u32`.
#[derive(Clone, Copy, PartialEq, Eq, Structural, PartialOrd, Ord, Hash, Debug)]
pub struct FourByteTag(u32);

impl FourByteTag {
    /// The packed tag.
    pub closed spec fn spec_value(self) -> u32 {
        self.0
    }

    /// The tag with the packed value `v`.
    pub closed spec fn spec_new(v: u32) -> FourByteTag {
        FourByteTag(v)
    }

    /// The packed tag.
    pub fn value(self) -> (r: u32)
        ensures
            r == self.spec_value(),
    {
        self.0
    }

    /// The tag of the four characters, first character in the top byte.
    pub fn from_chars(a: u8, b: u8, c: u8, d: u8) -> (t: FourByteTag)
        ensures
            t.spec_value() == (a as u32) << 24u32 | (b as u32) << 16u32 | (c as u32) << 8u32 | (d as u32),
    {
        FourByteTag(((a as u32) << 24u32) | ((b as u32) << 16u32) | ((c as u32) << 8u32) | (d as u32))
    }
}

impl From<u32> for FourByteTag {
    fn from(v: u32) -> (t: FourByteTag) {
        FourByteTag(v)
    }
}

impl vstd::std_specs::convert::FromSpecImpl<u32> for FourByteTag {
    open spec fn obeys_from_spec() -> bool {
        true
    }

    open spec fn from_spec(v: u32) -> FourByteTag {
        FourByteTag::spec_new(v)
    }
}

impl Default for FourByteTag {
    fn default() -> (t: FourByteTag)
        ensures
            t.spec_value() == 0,
    {
        FourByteTag(0)
    }
}


/// How the alpha of a pixel is stored.
#[derive(Clone, Copy, PartialEq, Eq, Structural, Debug)]
pub enum AlphaType {
    Unknown,
    Opaque,
    Premul,
    Unpremul,
}

impl AlphaType {
    /// Whether every pixel is fully opaque by the alpha type alone.
    pub fn is_opaque(self) -> (r: bool)
        ensures
            r == (self == AlphaType::Opaque),
    {
        match self {
            AlphaType::Opaque => true,
            _ => false,
        }
    }
}

/// An integer rectangle, from its left-top corner (inclusive) to its
/// right-bottom corner (exclusive).
#[derive(Clone, Copy, PartialEq, Eq, Structural, Debug)]
pub struct IRect {
    pub left: i32,
    pub top: i32,
    pub right: i32,
    pub bottom: i32,
}

impl IRect {
    /// The rectangle of the four sides.
    pub fn new(left: i32, top: i32, right: i32, bottom: i32) -> (r: IRect)
        ensures
            r == (IRect { left, top, right, bottom }),
    {
        IRect { left, top, right, bottom }
    }

    /// Whether the rectangle encloses no area.
    pub fn is_empty(&self) -> (r: bool)
        ensures
            r == (self.left >= self.right || self.top >= self.bottom),
    {
        self.left >= self.right || self.top >= self.bottom
    }
}

impl Default for IRect {
    /// The empty rectangle at the origin.
    fn default() -> (r: IRect)
        ensures
            r == (IRect { left: 0, top: 0, right: 0, bottom: 0 }),
    {
        IRect { left: 0, top: 0, right: 0, bottom: 0 }
    }
}


/// A point of the plane, its coordinates as scalars.
#[derive(Clone, Copy, PartialEq, Eq, Structural, Debug)]
pub struct Point {
    pub x: Scalar,
    pub y: Scalar,
}

/// A rotation-and-scale transform followed by a translation: the scaled
/// cosine and sine of the angle, and the translation.
#[derive(Clone, Copy, PartialEq, Eq, Structural, Debug)]
pub struct RSXform {
    pub scos: Scalar,
    pub ssin: Scalar,
    pub tx: Scalar,
    pub ty: Scalar,
}

} // verus!

//! Identification of color spaces by the hash of their gamut.
use vstd::prelude::*;

verus! {

/// The hash of the XYZ D50 gamut of a color space.
#[derive(Clone, Copy, PartialEq, Eq, Structural, Debug)]
pub struct XYZD50Hash(pub u32);

} // verus!

//! The entries that override a font palette.
use vstd::prelude::*;
use crate::color::Color;

verus! {

/// A palette entry override.
#[derive(Clone, Copy, PartialEq, Eq, Structural, Debug)]
pub struct Override {
    pub index: u16,
    pub color: Color,
}

impl Default for Override {
    fn default() -> (o: Override)
        ensures
            o.index == 0 && o.color.spec_value() == 0,
    {
        Override { index: 0, color: Color::new(0) }
    }
}

} // verus!

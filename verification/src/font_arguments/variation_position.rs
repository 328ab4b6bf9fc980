//! The coordinates of a position in a variation design space.
use vstd::prelude::*;
use crate::scalar::{Scalar, spec_scalar_eq, scalar_eq};
use crate::types::FourByteTag;

verus! {

/// A single axis/value pair of a [`VariationPosition`].
#[derive(Clone, Copy, Debug)]
pub struct Coordinate {
    pub axis: FourByteTag,
    pub value: Scalar,
}

impl PartialEq for Coordinate {
    fn eq(&self, other: &Self) -> (r: bool) {
        self.axis == other.axis && scalar_eq(self.value, other.value)
    }
}

impl vstd::std_specs::cmp::PartialEqSpecImpl for Coordinate {
    open spec fn obeys_eq_spec() -> bool {
        true
    }

    open spec fn eq_spec(&self, other: &Self) -> bool {
        self.axis == other.axis && spec_scalar_eq(self.value, other.value)
    }
}

impl Default for Coordinate {
    fn default() -> (c: Coordinate)
        ensures
            c.axis.spec_value() == 0 && c.value == 0,
    {
        Coordinate { axis: FourByteTag::default(), value: 0 }
    }
}

} // verus!

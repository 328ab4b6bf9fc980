//! The variation axes of a font.
use vstd::prelude::*;
use crate::scalar::{Scalar, spec_scalar_eq, scalar_eq};
use crate::types::FourByteTag;

verus! {

/// The bit of the axis flags that marks an axis hidden from user interfaces.
pub const AXIS_HIDDEN_BIT: u16 = 0x0001u16;

/// A variation axis of a font: its tag, its minimum, default and maximum
/// values, and whether it should stay hidden in user interfaces.
#[derive(Clone, Copy, Debug)]
pub struct Axis {
    pub tag: FourByteTag,
    pub min: Scalar,
    pub def: Scalar,
    pub max: Scalar,
    flags: u16,
}



impl View for Axis {
    type V = (FourByteTag, Scalar, Scalar, Scalar, u16);

    /// The tag, the minimum, default and maximum values, and the flags.
    closed spec fn view(&self) -> (FourByteTag, Scalar, Scalar, Scalar, u16) {
        (self.tag, self.min, self.def, self.max, self.flags)
    }
}

impl Axis {
    /// The flags of the axis.
    pub open spec fn spec_flags(self) -> u16 {
        self@.4
    }

    /// Whether the axis is hidden: its hidden bit is set.
    pub open spec fn spec_is_hidden(self) -> bool {
        self.spec_flags() & 0x0001u16 != 0
    }

    /// The axis of the given tag and values.
    pub fn new(tag: FourByteTag, min: Scalar, def: Scalar, max: Scalar, hidden: bool) -> (a: Axis)
        ensures
            a@.0 == tag && a@.1 == min && a@.2 == def && a@.3 == max,
            a.spec_flags() == (if hidden { 1u16 } else { 0u16 }),
    {
        Axis { tag, min, def, max, flags: if hidden { 1 } else { 0 } }
    }

    /// Whether the axis is recommended to remain hidden in user interfaces.
    pub fn is_hidden(&self) -> (r: bool)
        ensures
            r == self.spec_is_hidden(),
    {
        self.flags & AXIS_HIDDEN_BIT != 0
    }

    /// Sets whether the axis should remain hidden; the other flags stay.
    pub fn set_hidden(&mut self, hidden: bool) -> (r: &mut Self)
        ensures
            r.spec_is_hidden() == hidden,
            r.spec_flags() & 0xfffeu16 == old(self).spec_flags() & 0xfffeu16,
            r@.0 == old(self)@.0 && r@.1 == old(self)@.1,
            r@.2 == old(self)@.2 && r@.3 == old(self)@.3,
            *final(self) == *final(r),
    {
        let f = self.flags;
        let flags = if hidden { f | AXIS_HIDDEN_BIT } else { f & !AXIS_HIDDEN_BIT };
        assert((f | 1u16) & 1u16 != 0 && (f & !1u16) & 1u16 == 0 && (f | 1u16) & 0xfffeu16 == f & 0xfffeu16
            && (f & !1u16) & 0xfffeu16 == f & 0xfffeu16) by (bit_vector);
        self.flags = flags;
        self
    }
}

impl PartialEq for Axis {
    fn eq(&self, other: &Self) -> (r: bool) {
        self.tag == other.tag && scalar_eq(self.min, other.min) && scalar_eq(self.def, other.def)
            && scalar_eq(self.max, other.max) && self.flags == other.flags
    }
}

impl vstd::std_specs::cmp::PartialEqSpecImpl for Axis {
    open spec fn obeys_eq_spec() -> bool {
        true
    }

    open spec fn eq_spec(&self, other: &Self) -> bool {
        &&& self@.0 == other@.0
        &&& spec_scalar_eq(self@.1, other@.1)
        &&& spec_scalar_eq(self@.2, other@.2)
        &&& spec_scalar_eq(self@.3, other@.3)
        &&& self.spec_flags() == other.spec_flags()
    }
}

impl Default for Axis {
    fn default() -> (a: Axis)
        ensures
            a@.0.spec_value() == 0 && a@.1 == 0 && a@.2 == 0 && a@.3 == 0,
            a.spec_flags() == 0,
    {
        Axis { tag: FourByteTag::default(), min: 0, def: 0, max: 0, flags: 0 }
    }
}

} // verus!

//! Four-component vectors, and the overloading traits of 4x4 matrices.
use vstd::prelude::*;
use crate::scalar::{Scalar, SCALAR_ONE, spec_scalar_eq, scalar_eq};

verus! {

/// A vector of four scalars `(x, y, z, w)`.
#[derive(Clone, Copy, Debug)]
pub struct Vector4 {
    x: Scalar,
    y: Scalar,
    z: Scalar,
    w: Scalar,
}

/// The `w` given, or `1.0` when none is.
pub open spec fn spec_w_or_one(w: Option<Scalar>) -> Scalar {
    match w {
        Some(w) => w,
        None => 0x3f80_0000u32,
    }
}

/// Numeric equality of two vectors, component by component.
pub open spec fn spec_vector4_eq(
    a: (Scalar, Scalar, Scalar, Scalar),
    b: (Scalar, Scalar, Scalar, Scalar),
) -> bool {
    spec_scalar_eq(a.0, b.0) && spec_scalar_eq(a.1, b.1) && spec_scalar_eq(a.2, b.2)
        && spec_scalar_eq(a.3, b.3)
}

impl View for Vector4 {
    type V = (Scalar, Scalar, Scalar, Scalar);

    /// The components `(x, y, z, w)`.
    closed spec fn view(&self) -> (Scalar, Scalar, Scalar, Scalar) {
        (self.x, self.y, self.z, self.w)
    }
}

impl Vector4 {
    /// The vector `(x, y, z, w)`; `w` is `1.0` when not given.
    pub fn new(x: Scalar, y: Scalar, z: Scalar, w: Option<Scalar>) -> (v: Vector4)
        ensures
            v@ == (x, y, z, spec_w_or_one(w)),
    {
        Vector4 {
            x,
            y,
            z,
            w: match w {
                Some(w) => w,
                None => SCALAR_ONE,
            },
        }
    }

    /// Whether the vector equals, as numbers, `(x, y, z, w)`, with `w` `1.0`
    /// when not given.
    pub fn equals(&self, x: Scalar, y: Scalar, z: Scalar, w: Option<Scalar>) -> (r: bool)
        ensures
            r == spec_vector4_eq(self@, (x, y, z, spec_w_or_one(w))),
    {
        let other = Self::new(x, y, z, w);
        scalar_eq(self.x, other.x) && scalar_eq(self.y, other.y) && scalar_eq(self.z, other.z)
            && scalar_eq(self.w, other.w)
    }

    /// Sets the vector to `(x, y, z, w)`, with `w` `1.0` when not given.
    pub fn set(&mut self, x: Scalar, y: Scalar, z: Scalar, w: Option<Scalar>)
        ensures
            final(self)@ == (x, y, z, spec_w_or_one(w)),
    {
        *self = Self::new(x, y, z, w)
    }
}

impl PartialEq for Vector4 {
    fn eq(&self, other: &Self) -> (r: bool) {
        scalar_eq(self.x, other.x) && scalar_eq(self.y, other.y) && scalar_eq(self.z, other.z)
            && scalar_eq(self.w, other.w)
    }
}

impl vstd::std_specs::cmp::PartialEqSpecImpl for Vector4 {
    open spec fn obeys_eq_spec() -> bool {
        true
    }

    open spec fn eq_spec(&self, other: &Self) -> bool {
        spec_vector4_eq(self@, other@)
    }
}

impl Default for Vector4 {
    fn default() -> (v: Vector4)
        ensures
            v@ == (0u32, 0u32, 0u32, SCALAR_ONE),
    {
        Vector4::new(0, 0, 0, None)
    }
}

impl From<(Scalar, Scalar, Scalar, Scalar)> for Vector4 {
    fn from(v: (Scalar, Scalar, Scalar, Scalar)) -> (r: Vector4) {
        Vector4::new(v.0, v.1, v.2, Some(v.3))
    }
}

impl vstd::std_specs::convert::FromSpecImpl<(Scalar, Scalar, Scalar, Scalar)> for Vector4 {
    open spec fn obeys_from_spec() -> bool {
        true
    }

    open spec fn from_spec(v: (Scalar, Scalar, Scalar, Scalar)) -> Vector4 {
        Vector4::spec_new(v)
    }
}

impl From<(Scalar, Scalar, Scalar)> for Vector4 {
    fn from(v: (Scalar, Scalar, Scalar)) -> (r: Vector4) {
        Vector4::new(v.0, v.1, v.2, None)
    }
}

impl vstd::std_specs::convert::FromSpecImpl<(Scalar, Scalar, Scalar)> for Vector4 {
    open spec fn obeys_from_spec() -> bool {
        true
    }

    open spec fn from_spec(v: (Scalar, Scalar, Scalar)) -> Vector4 {
        Vector4::spec_new((v.0, v.1, v.2, 0x3f80_0000u32))
    }
}

impl From<[Scalar; 4]> for Vector4 {
    fn from(v: [Scalar; 4]) -> (r: Vector4) {
        Vector4::new(v[0], v[1], v[2], Some(v[3]))
    }
}

impl vstd::std_specs::convert::FromSpecImpl<[Scalar; 4]> for Vector4 {
    open spec fn obeys_from_spec() -> bool {
        true
    }

    open spec fn from_spec(v: [Scalar; 4]) -> Vector4 {
        Vector4::spec_new((v@[0], v@[1], v@[2], v@[3]))
    }
}

impl From<[Scalar; 3]> for Vector4 {
    fn from(v: [Scalar; 3]) -> (r: Vector4) {
        Vector4::new(v[0], v[1], v[2], None)
    }
}

impl vstd::std_specs::convert::FromSpecImpl<[Scalar; 3]> for Vector4 {
    open spec fn obeys_from_spec() -> bool {
        true
    }

    open spec fn from_spec(v: [Scalar; 3]) -> Vector4 {
        Vector4::spec_new((v@[0], v@[1], v@[2], 0x3f80_0000u32))
    }
}

impl Vector4 {
    /// The vector of the components `v`.
    pub closed spec fn spec_new(v: (Scalar, Scalar, Scalar, Scalar)) -> Vector4 {
        Vector4 { x: v.0, y: v.1, z: v.2, w: v.3 }
    }

    /// The components of the vector made from `v` are `v`.
    pub proof fn lemma_spec_new(v: (Scalar, Scalar, Scalar, Scalar))
        ensures
            Vector4::spec_new(v)@ == v,
    {
    }

    /// Two vectors with the same components are the same vector.
    pub proof fn lemma_eq_from_view(a: Vector4, b: Vector4)
        requires
            a@ == b@,
        ensures
            a == b,
    {
    }
}

/// Two vectors are equal exactly when each of their four pairs of
/// components is equal as numbers: vectors whose `x`, `y`, `z` or `w`
/// components differ as numbers (two zeros of either sign do not differ, a
/// NaN differs from everything) are unequal.  The equality is symmetric.
pub proof fn lemma_vector4_eq_by_components(
    a: (Scalar, Scalar, Scalar, Scalar),
    b: (Scalar, Scalar, Scalar, Scalar),
)
    ensures
        spec_vector4_eq(a, b) ==> (spec_scalar_eq(a.0, b.0) && spec_scalar_eq(a.1, b.1)
            && spec_scalar_eq(a.2, b.2) && spec_scalar_eq(a.3, b.3)),
        (spec_scalar_eq(a.0, b.0) && spec_scalar_eq(a.1, b.1) && spec_scalar_eq(a.2, b.2)
            && spec_scalar_eq(a.3, b.3)) ==> spec_vector4_eq(a, b),
        !spec_scalar_eq(a.0, b.0) ==> !spec_vector4_eq(a, b),
        !spec_scalar_eq(a.1, b.1) ==> !spec_vector4_eq(a, b),
        !spec_scalar_eq(a.2, b.2) ==> !spec_vector4_eq(a, b),
        !spec_scalar_eq(a.3, b.3) ==> !spec_vector4_eq(a, b),
        spec_vector4_eq(a, b) == spec_vector4_eq(b, a),
{
}

/// Setting, pre- and post-multiplying a 4x4 matrix by a scale, given either
/// as one scalar for all axes or as one per axis.
pub trait SetPrePostScale<T> {
    fn set_scale(&mut self, v: T) -> &mut Self;

    fn pre_scale(&mut self, v: T) -> &mut Self;

    fn post_scale(&mut self, v: T) -> &mut Self;
}

/// Mapping four scalars through a 4x4 matrix, in place or from a source to a
/// destination.
pub trait MapScalars<T> {
    fn map_scalars(&self, v: T);
}

/// Mapping two-component points through a 4x4 matrix into four-component
/// results.
pub trait Map2<T> {
    fn map2(&self, v: T);
}

} // verus!

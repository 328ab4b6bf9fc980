//! The fill rules and the verbs of paths.
use vstd::prelude::*;

verus! {

/// The rule that decides which points of the plane a path covers.
#[derive(Clone, Copy, PartialEq, Eq, Structural, Debug, Hash)]
pub enum PathFillType {
    /// Covered where the winding number is not zero.
    Winding,
    /// Covered where the winding number is odd.
    EvenOdd,
    /// Covered where the winding number is zero: the outside of `Winding`.
    InverseWinding,
    /// Covered where the winding number is even: the outside of `EvenOdd`.
    InverseEvenOdd,
}

impl PathFillType {
    /// The number of the rule, in the order of the variants: bit 0 is set for
    /// the even-odd rules, bit 1 for the inverse rules.
    pub open spec fn spec_value(self) -> i32 {
        match self {
            PathFillType::Winding => 0,
            PathFillType::EvenOdd => 1,
            PathFillType::InverseWinding => 2,
            PathFillType::InverseEvenOdd => 3,
        }
    }

    /// The rule counts the crossings modulo two.
    pub open spec fn spec_is_even_odd(self) -> bool {
        self is EvenOdd || self is InverseEvenOdd
    }

    /// The rule covers the outside of the path.
    pub open spec fn spec_is_inverse(self) -> bool {
        self is InverseWinding || self is InverseEvenOdd
    }

    /// The rule with the same counting that covers the inside of the path.
    pub open spec fn spec_to_non_inverse(self) -> PathFillType {
        match self {
            PathFillType::Winding => PathFillType::Winding,
            PathFillType::EvenOdd => PathFillType::EvenOdd,
            PathFillType::InverseWinding => PathFillType::Winding,
            PathFillType::InverseEvenOdd => PathFillType::EvenOdd,
        }
    }

    /// The rule with the same counting that covers the other side.
    pub open spec fn spec_toggle_inverse(self) -> PathFillType {
        match self {
            PathFillType::Winding => PathFillType::InverseWinding,
            PathFillType::EvenOdd => PathFillType::InverseEvenOdd,
            PathFillType::InverseWinding => PathFillType::Winding,
            PathFillType::InverseEvenOdd => PathFillType::EvenOdd,
        }
    }

    /// Whether the rule counts the crossings modulo two.
    pub fn is_even_odd(self) -> (r: bool)
        ensures
            r == self.spec_is_even_odd(),
    {
        match self {
            PathFillType::EvenOdd | PathFillType::InverseEvenOdd => true,
            _ => false,
        }
    }

    /// Whether the rule covers the outside of the path.
    pub fn is_inverse(self) -> (r: bool)
        ensures
            r == self.spec_is_inverse(),
    {
        match self {
            PathFillType::InverseWinding | PathFillType::InverseEvenOdd => true,
            _ => false,
        }
    }

    /// The rule with the same counting that covers the inside of the path.
    #[must_use]
    pub fn to_non_inverse(self) -> (r: PathFillType)
        ensures
            r == self.spec_to_non_inverse(),
    {
        match self {
            PathFillType::Winding => self,
            PathFillType::EvenOdd => self,
            PathFillType::InverseWinding => PathFillType::Winding,
            PathFillType::InverseEvenOdd => PathFillType::EvenOdd,
        }
    }

    /// The rule with the same counting that covers the other side.
    pub fn toggle_inverse(self) -> (r: PathFillType)
        ensures
            r == self.spec_toggle_inverse(),
    {
        match self {
            PathFillType::Winding => PathFillType::InverseWinding,
            PathFillType::EvenOdd => PathFillType::InverseEvenOdd,
            PathFillType::InverseWinding => PathFillType::Winding,
            PathFillType::InverseEvenOdd => PathFillType::EvenOdd,
        }
    }
}

impl Default for PathFillType {
    /// The winding rule.
    fn default() -> (r: PathFillType)
        ensures
            r == PathFillType::Winding,
    {
        PathFillType::Winding
    }
}

/// The two questions on a rule are the two low bits of its number.
pub proof fn lemma_fill_type_bits(ft: PathFillType)
    ensures
        ft.spec_is_even_odd() == (ft.spec_value() & 1 != 0),
        ft.spec_is_inverse() == (ft.spec_value() & 2 != 0),
{
    assert((0i32 & 1 == 0) && (0i32 & 2 == 0)) by (bit_vector);
    assert((1i32 & 1 != 0) && (1i32 & 2 == 0)) by (bit_vector);
    assert((2i32 & 1 == 0) && (2i32 & 2 != 0)) by (bit_vector);
    assert((3i32 & 1 != 0) && (3i32 & 2 != 0)) by (bit_vector);
}

/// Toggling the inverse twice gives the rule back; a toggle flips whether
/// the rule is inverse and keeps how it counts.
pub proof fn lemma_toggle_inverse(ft: PathFillType)
    ensures
        ft.spec_toggle_inverse().spec_toggle_inverse() == ft,
        ft.spec_toggle_inverse().spec_is_inverse() == !ft.spec_is_inverse(),
        ft.spec_toggle_inverse().spec_is_even_odd() == ft.spec_is_even_odd(),
        ft.spec_toggle_inverse().spec_to_non_inverse() == ft.spec_to_non_inverse(),
{
}

/// The non-inverse rule is never inverse, counts as the rule does, is the
/// rule itself when that is not inverse, and is its own non-inverse rule.
pub proof fn lemma_to_non_inverse(ft: PathFillType)
    ensures
        !ft.spec_to_non_inverse().spec_is_inverse(),
        ft.spec_to_non_inverse().spec_is_even_odd() == ft.spec_is_even_odd(),
        !ft.spec_is_inverse() ==> ft.spec_to_non_inverse() == ft,
        ft.spec_to_non_inverse().spec_to_non_inverse() == ft.spec_to_non_inverse(),
{
}

/// The verbs of a path's verb array.
#[derive(Clone, Copy, PartialEq, Eq, Structural, Debug, Hash)]
pub enum PathVerb {
    Move,
    Line,
    Quad,
    Conic,
    Cubic,
    Close,
}

/// The verbs an iterator over a path hands out, with `Done` once the verb
/// array is exhausted.
#[derive(Clone, Copy, PartialEq, Eq, Structural, Debug, Hash)]
pub enum Verb {
    Move,
    Line,
    Quad,
    Conic,
    Cubic,
    Close,
    Done,
}

impl Verb {
    /// The most points an iterator hands out for one verb.
    pub const MAX_POINTS: usize = 4usize;

    /// The number of points an iterator hands out for the verb.
    pub open spec fn spec_points(self) -> nat {
        match self {
            Verb::Move => 1,
            Verb::Line => 2,
            Verb::Quad => 3,
            Verb::Conic => 3,
            Verb::Cubic => 4,
            Verb::Close => 0,
            Verb::Done => 0,
        }
    }

    /// The number of points an iterator hands out for the verb.
    pub fn points(self) -> (r: usize)
        ensures
            r == self.spec_points(),
    {
        match self {
            Verb::Move => 1,
            Verb::Line => 2,
            Verb::Quad => 3,
            Verb::Conic => 3,
            Verb::Cubic => 4,
            Verb::Close => 0,
            Verb::Done => 0,
        }
    }
}

/// The iterator verb of a path verb.
pub open spec fn spec_verb_of(v: PathVerb) -> Verb {
    match v {
        PathVerb::Move => Verb::Move,
        PathVerb::Line => Verb::Line,
        PathVerb::Quad => Verb::Quad,
        PathVerb::Conic => Verb::Conic,
        PathVerb::Cubic => Verb::Cubic,
        PathVerb::Close => Verb::Close,
    }
}

impl From<PathVerb> for Verb {
    fn from(v: PathVerb) -> (r: Verb) {
        match v {
            PathVerb::Move => Verb::Move,
            PathVerb::Line => Verb::Line,
            PathVerb::Quad => Verb::Quad,
            PathVerb::Conic => Verb::Conic,
            PathVerb::Cubic => Verb::Cubic,
            PathVerb::Close => Verb::Close,
        }
    }
}

impl vstd::std_specs::convert::FromSpecImpl<PathVerb> for Verb {
    open spec fn obeys_from_spec() -> bool {
        true
    }

    open spec fn from_spec(v: PathVerb) -> Verb {
        spec_verb_of(v)
    }
}

impl PathVerb {
    /// The most points an iterator hands out for one verb.
    pub const MAX_POINTS: usize = 4usize;

    /// The number of points an iterator hands out for the verb: that of the
    /// same iterator verb.
    pub open spec fn spec_points(self) -> nat {
        spec_verb_of(self).spec_points()
    }

    /// The number of points an iterator hands out for the verb.
    pub fn points(self) -> (r: usize)
        ensures
            r == self.spec_points(),
    {
        Verb::from(self).points()
    }
}

/// No verb hands out more than [`Verb::MAX_POINTS`] points, and only the verbs
/// that end a contour or the iteration hand out none.
pub proof fn lemma_points_bounded(v: Verb)
    ensures
        v.spec_points() <= Verb::MAX_POINTS,
        v.spec_points() == 0 <==> (v is Close || v is Done),
{
}

} // verus!

//! Traits that overload a function over the kinds of its argument.
use vstd::prelude::*;

verus! {

/// Whether `self` contains `other`.
pub trait Contains<T> {
    fn contains(&self, other: T) -> bool;
}

/// Whether `other`, once transformed, surely lies outside `self`.
pub trait QuickReject<T> {
    fn quick_reject(&self, other: &T) -> bool;
}

} // verus!

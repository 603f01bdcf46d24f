//! What an operation on two intervals leaves: nothing, one interval or two.
use vstd::prelude::*;
use crate::range_interval::RangeInterval;

verus! {

/// The outcome of an operation on two intervals.
#[derive(Debug, PartialEq)]
#[verifier::reject_recursive_types(T)]
pub enum BinaryResult<T> {
    /// Nothing is left.
    Empty,
    /// One interval is left.
    One(RangeInterval<T>),
    /// Two separate intervals are left, the lower one first.
    Two(RangeInterval<T>, RangeInterval<T>),
}

impl<T: PartialOrd> BinaryResult<T> {
    /// `value` lies in one of the intervals held.
    pub open spec fn spec_contains(self, value: T) -> bool {
        match self {
            BinaryResult::Empty => false,
            BinaryResult::One(r) => r.spec_contains(value),
            BinaryResult::Two(r, s) => r.spec_contains(value) || s.spec_contains(value),
        }
    }
}

} // verus!

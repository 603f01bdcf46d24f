//! The std types that intervals are built from and converted to, declared for
//! the verifier as std defines them.
use vstd::prelude::*;
use std::ops::Bound;
use std::ops::RangeFrom;
use std::ops::RangeFull;
use std::ops::RangeTo;
use std::ops::RangeToInclusive;

verus! {

/// `std::ops::Bound`: an enum of `Included(T)`, `Excluded(T)` and `Unbounded`.
#[verifier::external_type_specification]
#[verifier::reject_recursive_types(T)]
pub struct ExBound<T>(Bound<T>);

/// `std::ops::RangeFrom`: a struct with the one public field `start`.
#[verifier::external_type_specification]
#[verifier::reject_recursive_types(Idx)]
pub struct ExRangeFrom<Idx>(RangeFrom<Idx>);

/// `std::ops::RangeTo`: a struct with the one public field `end`.
#[verifier::external_type_specification]
#[verifier::reject_recursive_types(Idx)]
pub struct ExRangeTo<Idx>(RangeTo<Idx>);

/// `std::ops::RangeToInclusive`: a struct with the one public field `end`.
#[verifier::external_type_specification]
#[verifier::reject_recursive_types(Idx)]
pub struct ExRangeToInclusive<Idx>(RangeToInclusive<Idx>);

/// `std::ops::RangeFull`: a unit struct.
#[verifier::external_type_specification]
pub struct ExRangeFull(RangeFull);

/// `RangeInclusive::into_inner` hands out the two bounds the range was made
/// of, the lower first.
pub assume_specification<Idx>[ std::ops::RangeInclusive::<Idx>::into_inner ](
    r: std::ops::RangeInclusive<Idx>,
) -> (ret: (Idx, Idx))
    ensures
        ret.0 == r@.start,
        ret.1 == r@.end,
;

/// `RangeInclusive::start` borrows the lower bound.
pub assume_specification<Idx>[ std::ops::RangeInclusive::<Idx>::start ](
    r: &std::ops::RangeInclusive<Idx>,
) -> (ret: &Idx)
    ensures
        *ret == r@.start,
;

/// `RangeInclusive::end` borrows the upper bound.
pub assume_specification<Idx>[ std::ops::RangeInclusive::<Idx>::end ](
    r: &std::ops::RangeInclusive<Idx>,
) -> (ret: &Idx)
    ensures
        *ret == r@.end,
;

} // verus!

//! Splitting a range at the bounds of another: what of the first lies below
//! the second and what lies above it.
use vstd::prelude::*;
use vstd::std_specs::cmp::PartialOrdSpec;
use core::cmp::Ordering;
use std::ops::Range;
use crate::order::ge;
use crate::order::lawful;
use crate::order::lt;

verus! {

/// The pieces that a split leaves: a lower one of type `L`, an upper one of
/// type `U`, both or neither.
#[derive(PartialEq, Debug)]
#[verifier::reject_recursive_types(L)]
#[verifier::reject_recursive_types(U)]
pub enum SplitResultTwo<L, U> {
    /// Nothing is left.
    Empty,
    /// Only a lower piece is left.
    First(L),
    /// Only an upper piece is left.
    Second(U),
    /// A lower and an upper piece are left.
    Both(L, U),
}

/// A range that can be split by a range of type `O`.
pub trait Split<O> {
    /// The pieces of a split.
    type Result: PartialEq;

    /// Splits this range by `other`.
    fn split(&self, other: &O) -> Self::Result;
}

/// The two values cannot be compared.
pub open spec fn unordered<T: PartialOrd>(a: T, b: T) -> bool {
    a.partial_cmp_spec(&b) is None
}

/// `l` is the range from a clone of `start` to a clone of `end`.
pub open spec fn is_lower_piece<T: Clone>(l: Range<T>, start: T, end: T) -> bool {
    cloned(start, l.start) && cloned(end, l.end)
}

/// `u` is the fresh inclusive range from a clone of `start` to a clone of
/// `end`.
pub open spec fn is_upper_piece<T: Clone>(
    u: std::ops::RangeInclusive<T>,
    start: T,
    end: T,
) -> bool {
    cloned(start, u@.start) && cloned(end, u@.end) && !u@.exhausted
}

/// What splitting `a..=b` by `x..y` gives.
///
/// Where `x..y` lies wholly below or above, all of `a..=b` is the upper
/// piece. Where `x` is `b`, the lower piece `a..b` alone is left. Otherwise a
/// lower piece `a..x` is left where `a` is below `x`, and an upper piece
/// `y..=b` where `y` is not above `b`. Nothing is left where two of the
/// values that had to be compared cannot be.
pub open spec fn split_inclusive_by_range<T: PartialOrd + Clone>(
    a: T,
    b: T,
    x: T,
    y: T,
    r: SplitResultTwo<Range<T>, std::ops::RangeInclusive<T>>,
) -> bool {
    if unordered(a, y) {
        r is Empty
    } else if ge(a, y) {
        r matches SplitResultTwo::Second(u) && is_upper_piece(u, a, b)
    } else if unordered(b, x) {
        r is Empty
    } else if lt(b, x) {
        r matches SplitResultTwo::Second(u) && is_upper_piece(u, a, b)
    } else if b.partial_cmp_spec(&x) == Some(Ordering::Equal) {
        r matches SplitResultTwo::First(l) && is_lower_piece(l, a, b)
    } else if unordered(a, x) || unordered(b, y) {
        r is Empty
    } else if lt(a, x) {
        if lt(b, y) {
            r matches SplitResultTwo::First(l) && is_lower_piece(l, a, x)
        } else {
            r matches SplitResultTwo::Both(l, u) && is_lower_piece(l, a, x) && is_upper_piece(
                u,
                y,
                b,
            )
        }
    } else {
        if lt(b, y) {
            r is Empty
        } else {
            r matches SplitResultTwo::Second(u) && is_upper_piece(u, y, b)
        }
    }
}

impl<T: PartialOrd + Clone> Split<Range<T>> for std::ops::RangeInclusive<T> {
    type Result = SplitResultTwo<Range<T>, std::ops::RangeInclusive<T>>;

    /// The lower piece excludes its end, which is the start of `other` and
    /// belongs to `other`; the upper piece begins with the end of `other`,
    /// which `other` excludes.
    fn split(&self, other: &Range<T>) -> (r: Self::Result)
        ensures
            lawful::<T>() ==> split_inclusive_by_range(
                self@.start,
                self@.end,
                other.start,
                other.end,
                r,
            ),
    {
        let a = self.start();
        let b = self.end();
        match a.partial_cmp(&other.end) {
            None => {
                return SplitResultTwo::Empty;
            },
            Some(Ordering::Less) => {},
            Some(_) => {
                return SplitResultTwo::Second(std::ops::RangeInclusive::new(a.clone(), b.clone()));
            },
        }
        match b.partial_cmp(&other.start) {
            None => {
                return SplitResultTwo::Empty;
            },
            Some(Ordering::Less) => {
                return SplitResultTwo::Second(std::ops::RangeInclusive::new(a.clone(), b.clone()));
            },
            Some(Ordering::Equal) => {
                return SplitResultTwo::First(Range { start: a.clone(), end: b.clone() });
            },
            Some(Ordering::Greater) => {},
        }
        let starts_below = match a.partial_cmp(&other.start) {
            None => {
                return SplitResultTwo::Empty;
            },
            Some(Ordering::Less) => true,
            Some(_) => false,
        };
        let ends_below = match b.partial_cmp(&other.end) {
            None => {
                return SplitResultTwo::Empty;
            },
            Some(Ordering::Less) => true,
            Some(_) => false,
        };
        if starts_below {
            if ends_below {
                SplitResultTwo::First(Range { start: a.clone(), end: other.start.clone() })
            } else {
                SplitResultTwo::Both(
                    Range { start: a.clone(), end: other.start.clone() },
                    std::ops::RangeInclusive::new(other.end.clone(), b.clone()),
                )
            }
        } else {
            if ends_below {
                SplitResultTwo::Empty
            } else {
                SplitResultTwo::Second(std::ops::RangeInclusive::new(other.end.clone(), b.clone()))
            }
        }
    }
}

} // verus!

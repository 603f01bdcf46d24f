//! One representation for every shape of interval.
use vstd::prelude::*;
use std::ops::Bound;
use crate::edges::Edge;
use crate::edges::edge_comparable;
use crate::edges::edge_le;
use crate::edges::edge_lt;
use crate::edges::edges_ordered;
use crate::edges::lower_edge;
use crate::edges::upper_edge;
use crate::edges::value_of;
use crate::order::is_total_order;
use crate::order::lawful;
use crate::order::le;
use crate::order::lemma_compare;
use crate::order::lt;
use crate::order::same;

verus! {

/// An interval from a start bound to an end bound.
///
/// The lower bound is always kept in `start`. An interval that was written
/// from its higher end to its lower one is stored the other way round, with
/// `reverse` set; the flag changes nothing of what the interval contains.
#[derive(Debug, PartialEq)]
#[verifier::reject_recursive_types(T)]
pub struct RangeInterval<T> {
    /// The interval was written high-to-low.
    pub reverse: bool,
    pub start: Bound<T>,
    pub end: Bound<T>,
}

/// `to` is a bound of the same kind as `from`, with a clone of its value.
pub open spec fn bound_cloned<T: Clone>(from: Bound<T>, to: Bound<T>) -> bool {
    match (from, to) {
        (Bound::Unbounded, Bound::Unbounded) => true,
        (Bound::Included(v), Bound::Included(w)) => cloned(v, w),
        (Bound::Excluded(v), Bound::Excluded(w)) => cloned(v, w),
        _ => false,
    }
}

fn clone_bound<T: Clone>(b: &Bound<T>) -> (r: Bound<T>)
    ensures
        bound_cloned(*b, r),
{
    match b {
        Bound::Unbounded => Bound::Unbounded,
        Bound::Included(v) => Bound::Included(v.clone()),
        Bound::Excluded(v) => Bound::Excluded(v.clone()),
    }
}

impl<T: Clone> Clone for RangeInterval<T> {
    /// The same interval, with a clone of each value.
    fn clone(&self) -> (r: Self)
        ensures
            r.reverse == self.reverse,
            bound_cloned(self.start, r.start),
            bound_cloned(self.end, r.end),
    {
        RangeInterval {
            reverse: self.reverse,
            start: clone_bound(&self.start),
            end: clone_bound(&self.end),
        }
    }
}

impl<T: Copy> Copy for RangeInterval<T> {}

/// The std range type that an interval has the shape of.
#[derive(Debug, Eq, PartialEq, Clone, Copy)]
pub enum RangeType {
    /// `a..b`
    Range,
    /// `a..=b`
    RangeInclusive,
    /// `a..`
    RangeFrom,
    /// `..`
    RangeFull,
    /// `..b`
    RangeTo,
    /// `..=b`
    RangeToInclusive,
    /// A shape that std has no range type for.
    Other,
}

/// The value that a bound carries.
pub open spec fn bound_value<T>(b: Bound<T>) -> Option<T> {
    match b {
        Bound::Unbounded => None,
        Bound::Included(v) => Some(v),
        Bound::Excluded(v) => Some(v),
    }
}

/// The same value with the other inclusivity: what is left beside a removed
/// piece ends where the piece began, without the point that the piece held.
pub open spec fn flipped<T>(b: Bound<T>) -> Bound<T> {
    match b {
        Bound::Unbounded => Bound::Unbounded,
        Bound::Included(v) => Bound::Excluded(v),
        Bound::Excluded(v) => Bound::Included(v),
    }
}

impl<T: PartialOrd> RangeInterval<T> {
    /// Where the interval begins.
    pub open spec fn lower(self) -> Edge<T> {
        lower_edge(self.start)
    }

    /// Where the interval stops.
    pub open spec fn upper(self) -> Edge<T> {
        upper_edge(self.end)
    }

    /// The lower bound is in `start`: where both bounds carry a value, that
    /// of `start` is not above that of `end`.
    pub open spec fn wf(self) -> bool {
        match (bound_value(self.start), bound_value(self.end)) {
            (Some(a), Some(b)) => le(a, b),
            _ => true,
        }
    }

    /// Each bound of `self` can be compared with each bound of `other`.
    pub open spec fn comparable_with(self, other: Self) -> bool {
        &&& edge_comparable(self.lower(), other.lower())
        &&& edge_comparable(self.lower(), other.upper())
        &&& edge_comparable(self.upper(), other.lower())
        &&& edge_comparable(self.upper(), other.upper())
    }

    /// Tells whether each bound of `self` can be compared with each bound of
    /// `other`.
    pub(crate) fn is_comparable_with(&self, other: &Self) -> (r: bool)
        ensures
            lawful::<T>() ==> r == self.comparable_with(*other),
    {
        edges_ordered(&self.start, false, &other.start, false) && edges_ordered(
            &self.start,
            false,
            &other.end,
            true,
        ) && edges_ordered(&self.end, true, &other.start, false) && edges_ordered(
            &self.end,
            true,
            &other.end,
            true,
        )
    }

    /// The two bounds carry the same value and at least one of them excludes
    /// it.
    pub open spec fn spec_is_empty(self) -> bool {
        match (self.start, self.end) {
            (Bound::Included(a), Bound::Excluded(b)) => same(a, b),
            (Bound::Excluded(a), Bound::Included(b)) => same(a, b),
            (Bound::Excluded(a), Bound::Excluded(b)) => same(a, b),
            _ => false,
        }
    }

    /// `value` is not below the start bound and not above the end bound.
    pub open spec fn spec_contains(self, value: T) -> bool {
        &&& match self.start {
            Bound::Unbounded => true,
            Bound::Included(a) => le(a, value),
            Bound::Excluded(a) => lt(a, value),
        }
        &&& match self.end {
            Bound::Unbounded => true,
            Bound::Included(b) => le(value, b),
            Bound::Excluded(b) => lt(value, b),
        }
    }

    /// A well-formed interval is empty exactly where its stretch is: where it
    /// does not begin before it stops.
    pub proof fn lemma_stretch(self)
        requires
            is_total_order::<T>(),
            self.wf(),
        ensures
            self.spec_is_empty() <==> !edge_lt(self.lower(), self.upper()),
    {
        match (bound_value(self.start), bound_value(self.end)) {
            (Some(a), Some(b)) => {
                lemma_compare(a, b);
                lemma_compare(b, a);
            },
            _ => {},
        }
    }

    /// An interval that begins before it stops is well-formed.
    pub proof fn lemma_wf_from_stretch(self)
        requires
            is_total_order::<T>(),
            edge_lt(self.lower(), self.upper()),
        ensures
            self.wf(),
    {
        match (bound_value(self.start), bound_value(self.end)) {
            (Some(a), Some(b)) => {
                lemma_compare(a, b);
                lemma_compare(b, a);
            },
            _ => {},
        }
    }

    /// A value lies in an interval exactly where its place is not before the
    /// interval's beginning and is before the place where the interval stops.
    pub proof fn lemma_contains(self, v: T)
        requires
            is_total_order::<T>(),
        ensures
            self.spec_contains(v) <==> edge_le(self.lower(), Edge::At(v)) && edge_lt(
                Edge::At(v),
                self.upper(),
            ),
    {
        match bound_value(self.start) {
            Some(a) => {
                lemma_compare(a, v);
                lemma_compare(v, a);
            },
            _ => {},
        }
        match bound_value(self.end) {
            Some(b) => {
                lemma_compare(b, v);
                lemma_compare(v, b);
            },
            _ => {},
        }
    }

    /// What `new` makes of two bounds.
    pub open spec fn spec_new(start: Bound<T>, end: Bound<T>) -> Self {
        match (bound_value(start), bound_value(end)) {
            (Some(a), Some(b)) if crate::order::gt(a, b) => RangeInterval {
                reverse: true,
                start: end,
                end: start,
            },
            _ => RangeInterval { reverse: false, start, end },
        }
    }

    /// Over a total order `new` puts the lower bound first, and marks as
    /// reversed exactly the pairs that it had to swap.
    pub proof fn lemma_new_wf(start: Bound<T>, end: Bound<T>)
        requires
            is_total_order::<T>(),
        ensures
            Self::spec_new(start, end).wf(),
            Self::spec_new(start, end).reverse <==> (RangeInterval {
                reverse: false,
                start: end,
                end: start,
            }).wf() && !(RangeInterval { reverse: false, start, end }).wf(),
    {
        match (bound_value(start), bound_value(end)) {
            (Some(a), Some(b)) => {
                lemma_compare(a, b);
                lemma_compare(b, a);
            },
            _ => {},
        }
    }

    /// The interval between two bounds. Where both carry a value and the
    /// first is above the second, the bounds are swapped and the interval is
    /// marked as reversed.
    pub fn new(start: Bound<T>, end: Bound<T>) -> (r: Self)
        ensures
            lawful::<T>() ==> r == Self::spec_new(start, end),
            is_total_order::<T>() ==> r.wf(),
            r.reverse ==> r.start == end && r.end == start,
            !r.reverse ==> r.start == start && r.end == end,
    {
        proof {
            if is_total_order::<T>() {
                Self::lemma_new_wf(start, end);
            }
        }
        let swap = match (value_of(&start), value_of(&end)) {
            (Some(a), Some(b)) => *a > *b,
            _ => false,
        };
        if swap {
            RangeInterval { reverse: true, start: end, end: start }
        } else {
            RangeInterval { reverse: false, start, end }
        }
    }

    /// The reversed interval that holds `point` alone.
    pub fn rev_point(point: T) -> (r: Self) where T: Copy
        ensures
            r == (RangeInterval {
                reverse: true,
                start: Bound::Included(point),
                end: Bound::Included(point),
            }),
    {
        RangeInterval { reverse: true, start: Bound::Included(point), end: Bound::Included(point) }
    }

    /// Tells whether the interval holds no value at all because its two
    /// bounds meet at one value which one of them excludes.
    pub fn is_empty(&self) -> (r: bool)
        ensures
            lawful::<T>() ==> r == self.spec_is_empty(),
    {
        match (&self.start, &self.end) {
            (Bound::Included(a), Bound::Excluded(b)) => *a == *b,
            (Bound::Excluded(a), Bound::Included(b)) => *a == *b,
            (Bound::Excluded(a), Bound::Excluded(b)) => *a == *b,
            _ => false,
        }
    }

    /// Tells whether `value` lies in the interval.
    pub fn contains(&self, value: T) -> (r: bool)
        ensures
            lawful::<T>() ==> r == self.spec_contains(value),
    {
        let above_start = match &self.start {
            Bound::Unbounded => true,
            Bound::Included(a) => *a <= value,
            Bound::Excluded(a) => *a < value,
        };
        let below_end = match &self.end {
            Bound::Unbounded => true,
            Bound::Included(b) => value <= *b,
            Bound::Excluded(b) => value < *b,
        };
        above_start && below_end
    }

    /// What `range_type` answers.
    pub open spec fn spec_range_type(self) -> RangeType {
        match (self.reverse, self.start, self.end) {
            (_, Bound::Included(_), Bound::Included(_)) => RangeType::RangeInclusive,
            (_, Bound::Included(_), Bound::Excluded(_)) => RangeType::Range,
            (_, Bound::Included(_), Bound::Unbounded) => RangeType::RangeFrom,
            (true, Bound::Excluded(_), Bound::Included(_)) => RangeType::Range,
            (_, Bound::Excluded(_), _) => RangeType::Other,
            (_, Bound::Unbounded, Bound::Included(_)) => RangeType::RangeToInclusive,
            (_, Bound::Unbounded, Bound::Excluded(_)) => RangeType::RangeTo,
            (_, Bound::Unbounded, Bound::Unbounded) => RangeType::RangeFull,
        }
    }

    /// The std range type that this interval has the shape of. A reversed
    /// interval that excludes its start and includes its end is a `Range`
    /// written high-to-low.
    pub fn range_type(&self) -> (r: RangeType)
        ensures
            r == self.spec_range_type(),
    {
        match (self.reverse, &self.start, &self.end) {
            (_, Bound::Included(_), Bound::Included(_)) => RangeType::RangeInclusive,
            (_, Bound::Included(_), Bound::Excluded(_)) => RangeType::Range,
            (_, Bound::Included(_), Bound::Unbounded) => RangeType::RangeFrom,
            (true, Bound::Excluded(_), Bound::Included(_)) => RangeType::Range,
            (_, Bound::Excluded(_), _) => RangeType::Other,
            (_, Bound::Unbounded, Bound::Included(_)) => RangeType::RangeToInclusive,
            (_, Bound::Unbounded, Bound::Excluded(_)) => RangeType::RangeTo,
            (_, Bound::Unbounded, Bound::Unbounded) => RangeType::RangeFull,
        }
    }
}

} // verus!

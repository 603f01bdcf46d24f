//! The relation of two ranges of std.
//!
//! A `Range` written high-to-low stands for the same values as the one
//! written low-to-high: `10..1` is taken as `1..10`, which holds 1 and not
//! 10. A `RangeInclusive` likewise.
use vstd::prelude::*;
use std::ops::Bound;
use std::ops::Range;
use std::ops::RangeFrom;
use std::ops::RangeFull;
use std::ops::RangeTo;
use crate::classify::relation_of_edges;
use crate::edges::Edge;
use crate::intersect::Intersection;
use crate::intersect::IntersectionExt;
use crate::order::gt;
use crate::order::is_total_order;
use crate::order::lawful;
use crate::order::le;
use crate::order::lemma_compare;
use crate::order::lt;
use crate::order::same;
use crate::range_interval::RangeInterval;

verus! {

/// How a range lies to another range, of the same type or not.
pub trait Intersect<T: PartialOrd, U> {
    /// The relation of this range to `other`, seen from this range.
    fn intersect_ext(&self, other: &U) -> IntersectionExt;

    /// The coarse relation of this range to `other`.
    fn intersect(&self, other: &U) -> Intersection;

    /// Tells whether this range and `other` share anything.
    fn does_intersect(&self, other: &U) -> bool;
}

/// The interval from the lower value of a `Range` up to its higher value,
/// without the higher value.
pub open spec fn half_open<T: PartialOrd>(r: Range<T>) -> RangeInterval<T> {
    if gt(r.start, r.end) {
        RangeInterval {
            reverse: true,
            start: Bound::Included(r.end),
            end: Bound::Excluded(r.start),
        }
    } else {
        RangeInterval {
            reverse: false,
            start: Bound::Included(r.start),
            end: Bound::Excluded(r.end),
        }
    }
}

/// The interval from the lower value of a `RangeInclusive` up to its higher
/// value, with both.
pub open spec fn closed<T: PartialOrd>(r: std::ops::RangeInclusive<T>) -> RangeInterval<T> {
    if gt(r@.start, r@.end) {
        RangeInterval {
            reverse: true,
            start: Bound::Included(r@.end),
            end: Bound::Included(r@.start),
        }
    } else {
        RangeInterval {
            reverse: false,
            start: Bound::Included(r@.start),
            end: Bound::Included(r@.end),
        }
    }
}

fn half_open_of<T: PartialOrd + Copy>(r: &Range<T>) -> (i: RangeInterval<T>)
    ensures
        lawful::<T>() ==> i == half_open(*r),
{
    if r.start > r.end {
        RangeInterval {
            reverse: true,
            start: Bound::Included(r.end),
            end: Bound::Excluded(r.start),
        }
    } else {
        RangeInterval {
            reverse: false,
            start: Bound::Included(r.start),
            end: Bound::Excluded(r.end),
        }
    }
}

fn closed_of<T: PartialOrd + Copy>(r: &std::ops::RangeInclusive<T>) -> (i: RangeInterval<T>)
    ensures
        lawful::<T>() ==> i == closed(*r),
{
    let a = *r.start();
    let b = *r.end();
    if a > b {
        RangeInterval { reverse: true, start: Bound::Included(b), end: Bound::Included(a) }
    } else {
        RangeInterval { reverse: false, start: Bound::Included(a), end: Bound::Included(b) }
    }
}

/// The relation of the values from `a` up to `b` to the values from `x` up
/// to `y`, each without its upper value, as the comparisons of the four
/// values give it.
pub open spec fn relation_of_values<T: PartialOrd>(a: T, b: T, x: T, y: T) -> IntersectionExt {
    if same(b, y) {
        if lt(a, x) {
            IntersectionExt::Over
        } else if gt(a, x) {
            IntersectionExt::Within
        } else {
            IntersectionExt::Same
        }
    } else if lt(b, y) {
        if le(b, x) {
            IntersectionExt::Less
        } else if lt(a, x) {
            IntersectionExt::LessOverlap
        } else {
            IntersectionExt::Within
        }
    } else if lt(a, y) {
        if le(a, x) {
            IntersectionExt::Over
        } else {
            IntersectionExt::GreaterOverlap
        }
    } else {
        IntersectionExt::Greater
    }
}

/// Over a total order the relation of four values is that of their places.
pub proof fn lemma_relation_of_values<T: PartialOrd>(a: T, b: T, x: T, y: T)
    requires
        is_total_order::<T>(),
    ensures
        relation_of_values(a, b, x, y) == relation_of_edges(
            Edge::At(a),
            Edge::At(b),
            Edge::At(x),
            Edge::At(y),
        ),
{
    lemma_compare(a, x);
    lemma_compare(a, y);
    lemma_compare(b, x);
    lemma_compare(b, y);
}

/// The relation of the values from `a` up to `b` to the values from `x` up
/// to `y`, each without its upper value.
pub fn do_intersect_ext<T: PartialOrd>(a: &T, b: &T, x: &T, y: &T) -> (r: IntersectionExt)
    ensures
        lawful::<T>() ==> r == relation_of_values(*a, *b, *x, *y),
{
    if *b == *y {
        if *a < *x {
            IntersectionExt::Over
        } else if *a > *x {
            IntersectionExt::Within
        } else {
            IntersectionExt::Same
        }
    } else if *b < *y {
        if *b <= *x {
            IntersectionExt::Less
        } else if *a < *x {
            IntersectionExt::LessOverlap
        } else {
            IntersectionExt::Within
        }
    } else if *a < *y {
        if *a <= *x {
            IntersectionExt::Over
        } else {
            IntersectionExt::GreaterOverlap
        }
    } else {
        IntersectionExt::Greater
    }
}

/// The relation of a `Range` to a `Range`.
pub open spec fn range_to_range<T: PartialOrd>(a: Range<T>, b: Range<T>) -> IntersectionExt {
    half_open(a).spec_classify(half_open(b))
}

/// The relation of a `Range` to a `RangeFrom`.
pub open spec fn range_to_range_from<T: PartialOrd>(
    a: Range<T>,
    b: RangeFrom<T>,
) -> IntersectionExt {
    half_open(a).spec_classify(RangeInterval::<T>::spec_from_range_from(b))
}

/// The relation of a `Range` to the `RangeFull`: within it, unless empty.
pub open spec fn range_to_range_full<T: PartialOrd>(a: Range<T>, b: RangeFull) -> IntersectionExt {
    if same(a.start, a.end) {
        IntersectionExt::Empty
    } else {
        IntersectionExt::Within
    }
}

/// Over a total order the relation of a `Range` to the `RangeFull` is that
/// of the intervals they stand for.
pub proof fn lemma_range_to_range_full<T: PartialOrd>(a: Range<T>, b: RangeFull)
    requires
        is_total_order::<T>(),
    ensures
        range_to_range_full(a, b) == half_open(a).spec_classify(
            RangeInterval::<T>::spec_from_range_full(b),
        ),
{
    lemma_compare(a.start, a.end);
    lemma_compare(a.end, a.start);
}

/// The relation of a `Range` to a `RangeTo`.
pub open spec fn range_to_range_to<T: PartialOrd>(a: Range<T>, b: RangeTo<T>) -> IntersectionExt {
    half_open(a).spec_classify(RangeInterval::<T>::spec_from_range_to(b))
}

/// The relation of a `RangeInclusive` to a `RangeInclusive`.
pub open spec fn inclusive_to_inclusive<T: PartialOrd>(
    a: std::ops::RangeInclusive<T>,
    b: std::ops::RangeInclusive<T>,
) -> IntersectionExt {
    closed(a).spec_classify(closed(b))
}

impl<T: PartialOrd + Copy> Intersect<T, Range<T>> for Range<T> {
    fn intersect_ext(&self, other: &Range<T>) -> (r: IntersectionExt)
        ensures
            lawful::<T>() ==> r == range_to_range(*self, *other),
    {
        half_open_of(self).classify(&half_open_of(other))
    }

    fn intersect(&self, other: &Range<T>) -> (r: Intersection)
        ensures
            lawful::<T>() ==> r == range_to_range(*self, *other).spec_intersection(),
    {
        self.intersect_ext(other).intersection()
    }

    fn does_intersect(&self, other: &Range<T>) -> (r: bool)
        ensures
            lawful::<T>() ==> r == range_to_range(*self, *other).spec_is_any(),
    {
        self.intersect_ext(other).is_any()
    }
}

impl<T: PartialOrd + Copy> Intersect<T, RangeFrom<T>> for Range<T> {
    fn intersect_ext(&self, other: &RangeFrom<T>) -> (r: IntersectionExt)
        ensures
            lawful::<T>() ==> r == range_to_range_from(*self, *other),
    {
        let from = RangeInterval {
            reverse: false,
            start: Bound::Included(other.start),
            end: Bound::Unbounded,
        };
        half_open_of(self).classify(&from)
    }

    fn intersect(&self, other: &RangeFrom<T>) -> (r: Intersection)
        ensures
            lawful::<T>() ==> r == range_to_range_from(*self, *other).spec_intersection(),
    {
        self.intersect_ext(other).intersection()
    }

    fn does_intersect(&self, other: &RangeFrom<T>) -> (r: bool)
        ensures
            lawful::<T>() ==> r == range_to_range_from(*self, *other).spec_is_any(),
    {
        self.intersect_ext(other).is_any()
    }
}

impl<T: PartialOrd> Intersect<T, RangeFull> for Range<T> {
    fn intersect_ext(&self, other: &RangeFull) -> (r: IntersectionExt)
        ensures
            lawful::<T>() ==> r == range_to_range_full(*self, *other),
    {
        if self.start == self.end {
            IntersectionExt::Empty
        } else {
            IntersectionExt::Within
        }
    }

    fn intersect(&self, other: &RangeFull) -> (r: Intersection)
        ensures
            lawful::<T>() ==> r == range_to_range_full(*self, *other).spec_intersection(),
    {
        self.intersect_ext(other).intersection()
    }

    fn does_intersect(&self, other: &RangeFull) -> (r: bool)
        ensures
            lawful::<T>() ==> r == range_to_range_full(*self, *other).spec_is_any(),
    {
        self.intersect_ext(other).is_any()
    }
}

impl<T: PartialOrd + Copy> Intersect<T, RangeTo<T>> for Range<T> {
    fn intersect_ext(&self, other: &RangeTo<T>) -> (r: IntersectionExt)
        ensures
            lawful::<T>() ==> r == range_to_range_to(*self, *other),
    {
        let to = RangeInterval {
            reverse: false,
            start: Bound::Unbounded,
            end: Bound::Excluded(other.end),
        };
        half_open_of(self).classify(&to)
    }

    fn intersect(&self, other: &RangeTo<T>) -> (r: Intersection)
        ensures
            lawful::<T>() ==> r == range_to_range_to(*self, *other).spec_intersection(),
    {
        self.intersect_ext(other).intersection()
    }

    fn does_intersect(&self, other: &RangeTo<T>) -> (r: bool)
        ensures
            lawful::<T>() ==> r == range_to_range_to(*self, *other).spec_is_any(),
    {
        self.intersect_ext(other).is_any()
    }
}

impl<T: PartialOrd + Copy> Intersect<T, std::ops::RangeInclusive<T>> for std::ops::RangeInclusive<
    T,
> {
    fn intersect_ext(&self, other: &std::ops::RangeInclusive<T>) -> (r: IntersectionExt)
        ensures
            lawful::<T>() ==> r == inclusive_to_inclusive(*self, *other),
    {
        closed_of(self).classify(&closed_of(other))
    }

    fn intersect(&self, other: &std::ops::RangeInclusive<T>) -> (r: Intersection)
        ensures
            lawful::<T>() ==> r == inclusive_to_inclusive(*self, *other).spec_intersection(),
    {
        self.intersect_ext(other).intersection()
    }

    fn does_intersect(&self, other: &std::ops::RangeInclusive<T>) -> (r: bool)
        ensures
            lawful::<T>() ==> r == inclusive_to_inclusive(*self, *other).spec_is_any(),
    {
        self.intersect_ext(other).is_any()
    }
}

} // verus!

//! The seven-way relation of two intervals.
use vstd::prelude::*;
use crate::edges::Edge;
use crate::edges::edge_at_most;
use crate::edges::edge_before;
use crate::edges::edge_eq;
use crate::edges::edge_le;
use crate::edges::edge_lt;
use crate::edges::edge_same;
use crate::edges::lemma_edges_of_two;
use crate::intersect::Intersection;
use crate::intersect::IntersectionExt;
use crate::order::is_total_order;
use crate::order::lawful;
use crate::range_interval::RangeInterval;

verus! {

/// The relation of the stretch from `a` up to `b` to the stretch from `x` up
/// to `y`, each without its upper place.
pub open spec fn relation_of_edges<T: PartialOrd>(
    a: Edge<T>,
    b: Edge<T>,
    x: Edge<T>,
    y: Edge<T>,
) -> IntersectionExt {
    if edge_eq(b, y) {
        if edge_lt(a, x) {
            IntersectionExt::Over
        } else if edge_lt(x, a) {
            IntersectionExt::Within
        } else {
            IntersectionExt::Same
        }
    } else if edge_lt(b, y) {
        if edge_le(b, x) {
            IntersectionExt::Less
        } else if edge_lt(a, x) {
            IntersectionExt::LessOverlap
        } else {
            IntersectionExt::Within
        }
    } else if edge_lt(a, y) {
        if edge_le(a, x) {
            IntersectionExt::Over
        } else {
            IntersectionExt::GreaterOverlap
        }
    } else {
        IntersectionExt::Greater
    }
}

impl<T: PartialOrd> RangeInterval<T> {
    /// The relation of this interval to `other`: `Empty` where either is
    /// empty or where a bound of one cannot be compared with a bound of the
    /// other, else the relation of their stretches. An unbounded side lies
    /// at infinity, and an excluded bound just past its value, away from the
    /// interval's inside.
    pub open spec fn spec_classify(self, other: Self) -> IntersectionExt {
        if self.spec_is_empty() || other.spec_is_empty() {
            IntersectionExt::Empty
        } else if !self.comparable_with(other) {
            IntersectionExt::Empty
        } else {
            relation_of_edges(self.lower(), self.upper(), other.lower(), other.upper())
        }
    }

    /// How this interval lies to `other`.
    pub fn classify(&self, other: &Self) -> (r: IntersectionExt)
        ensures
            lawful::<T>() ==> r == self.spec_classify(*other),
    {
        if self.is_empty() || other.is_empty() {
            return IntersectionExt::Empty;
        }
        if !self.is_comparable_with(other) {
            return IntersectionExt::Empty;
        }
        if edge_same(&self.end, true, &other.end, true) {
            if edge_before(&self.start, false, &other.start, false) {
                IntersectionExt::Over
            } else if edge_before(&other.start, false, &self.start, false) {
                IntersectionExt::Within
            } else {
                IntersectionExt::Same
            }
        } else if edge_before(&self.end, true, &other.end, true) {
            if edge_at_most(&self.end, true, &other.start, false) {
                IntersectionExt::Less
            } else if edge_before(&self.start, false, &other.start, false) {
                IntersectionExt::LessOverlap
            } else {
                IntersectionExt::Within
            }
        } else if edge_before(&self.start, false, &other.end, true) {
            if edge_at_most(&self.start, false, &other.start, false) {
                IntersectionExt::Over
            } else {
                IntersectionExt::GreaterOverlap
            }
        } else {
            IntersectionExt::Greater
        }
    }

    /// The coarse relation of this interval to `other`.
    pub fn intersection(&self, other: &Self) -> (r: Intersection)
        ensures
            lawful::<T>() ==> r == self.spec_classify(*other).spec_intersection(),
    {
        self.classify(other).intersection()
    }

    /// Tells whether this interval and `other` share anything.
    pub fn does_intersect(&self, other: &Self) -> (r: bool)
        ensures
            lawful::<T>() ==> r == self.spec_classify(*other).spec_is_any(),
    {
        self.classify(other).is_any()
    }
}

/// Seen from the other interval the relation is the mirrored one: `Less`
/// becomes `Greater`, `LessOverlap` becomes `GreaterOverlap`, `Within`
/// becomes `Over`, and back; `Same` and `Empty` stay.
pub proof fn lemma_classify_mirror<T: PartialOrd>(a: RangeInterval<T>, b: RangeInterval<T>)
    requires
        is_total_order::<T>(),
    ensures
        b.spec_classify(a) == a.spec_classify(b).mirror(),
{
    lemma_edges_of_two(a.lower(), a.upper(), b.lower(), b.upper());
}

/// What each relation says of the values that two intervals hold: intervals
/// of which one lies below the other share no value, an interval that lies
/// within another holds no value that the other does not hold, and two
/// intervals that are the same have the same bounds.
pub proof fn lemma_classify_contains<T: PartialOrd>(
    a: RangeInterval<T>,
    b: RangeInterval<T>,
    v: T,
)
    requires
        is_total_order::<T>(),
        a.wf(),
        b.wf(),
    ensures
        a.spec_classify(b) is Less || a.spec_classify(b) is Greater ==> !(a.spec_contains(v)
            && b.spec_contains(v)),
        a.spec_classify(b) is Within || a.spec_classify(b) is Same ==> (a.spec_contains(v)
            ==> b.spec_contains(v)),
        a.spec_classify(b) is Over || a.spec_classify(b) is Same ==> (b.spec_contains(v)
            ==> a.spec_contains(v)),
        a.spec_classify(b) is Same ==> a.start == b.start && a.end == b.end,
{
    let at = Edge::At(v);
    lemma_edges_of_two(a.lower(), a.upper(), b.lower(), b.upper());
    lemma_edges_of_two(a.lower(), a.upper(), b.lower(), at);
    lemma_edges_of_two(a.lower(), a.upper(), b.upper(), at);
    lemma_edges_of_two(a.lower(), b.lower(), b.upper(), at);
    lemma_edges_of_two(a.upper(), b.lower(), b.upper(), at);
    a.lemma_stretch();
    b.lemma_stretch();
    a.lemma_contains(v);
    b.lemma_contains(v);
}

/// What each relation says of the places where two intervals begin and stop.
pub proof fn lemma_classify_meaning<T: PartialOrd>(a: RangeInterval<T>, b: RangeInterval<T>)
    requires
        is_total_order::<T>(),
        a.wf(),
        b.wf(),
        !a.spec_is_empty(),
        !b.spec_is_empty(),
    ensures
        a.spec_classify(b) is Less <==> edge_le(a.upper(), b.lower()),
        a.spec_classify(b) is Greater <==> edge_le(b.upper(), a.lower()),
        a.spec_classify(b) is Same <==> edge_eq(a.lower(), b.lower()) && edge_eq(
            a.upper(),
            b.upper(),
        ),
        a.spec_classify(b) is Within || a.spec_classify(b) is Same <==> edge_le(
            b.lower(),
            a.lower(),
        ) && edge_le(a.upper(), b.upper()),
        a.spec_classify(b) is Over || a.spec_classify(b) is Same <==> edge_le(
            a.lower(),
            b.lower(),
        ) && edge_le(b.upper(), a.upper()),
        a.spec_classify(b) is LessOverlap <==> edge_lt(a.lower(), b.lower()) && edge_lt(
            b.lower(),
            a.upper(),
        ) && edge_lt(a.upper(), b.upper()),
        a.spec_classify(b) is GreaterOverlap <==> edge_lt(b.lower(), a.lower()) && edge_lt(
            a.lower(),
            b.upper(),
        ) && edge_lt(b.upper(), a.upper()),
{
    lemma_edges_of_two(a.lower(), a.upper(), b.lower(), b.upper());
    a.lemma_stretch();
    b.lemma_stretch();
}

} // verus!

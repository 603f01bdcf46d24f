//! Subtraction of one interval from another: what of the first is left
//! outside the second.
use vstd::prelude::*;
use std::ops::Bound;
use crate::binary_result::BinaryResult;
use crate::edges::Edge;
use crate::edges::edge_at_most;
use crate::edges::edge_before;
use crate::edges::edge_le;
use crate::edges::edge_lt;
use crate::edges::lemma_edges_of_two;
use crate::order::is_total_order;
use crate::order::lawful;
use crate::range_interval::flipped;
use crate::range_interval::RangeInterval;

verus! {

/// Turns an included bound into an excluded one and back.
pub(crate) fn flip<T>(b: Bound<T>) -> (r: Bound<T>)
    ensures
        r == flipped(b),
{
    match b {
        Bound::Unbounded => Bound::Unbounded,
        Bound::Included(v) => Bound::Excluded(v),
        Bound::Excluded(v) => Bound::Included(v),
    }
}

impl<T: PartialOrd> RangeInterval<T> {
    /// What is left of `self` below `other`: it keeps the start of `self` and
    /// ends at the value where `other` starts, which it holds exactly where
    /// `other` does not.
    pub open spec fn part_below(self, other: Self) -> Self {
        RangeInterval { reverse: self.reverse, start: self.start, end: flipped(other.start) }
    }

    /// What is left of `self` above `other`: it begins at the value where
    /// `other` ends, which it holds exactly where `other` does not, and keeps
    /// the end of `self`.
    pub open spec fn part_above(self, other: Self) -> Self {
        RangeInterval { reverse: self.reverse, start: flipped(other.end), end: self.end }
    }

    /// `self` without `other`.
    ///
    /// An empty `other` takes nothing away. Nothing is left where a bound of
    /// one cannot be compared with a bound of the other. An `other` that
    /// stops before `self` begins, or begins after `self` stops, takes
    /// nothing away. Otherwise a part is left below `other` where `self`
    /// begins before it, and a part above where `self` stops after it.
    pub open spec fn spec_subtract(self, other: Self) -> BinaryResult<T> {
        if other.spec_is_empty() {
            BinaryResult::One(self)
        } else if !self.comparable_with(other) {
            BinaryResult::Empty
        } else if edge_le(other.upper(), self.lower()) || edge_le(self.upper(), other.lower()) {
            BinaryResult::One(self)
        } else if edge_lt(self.lower(), other.lower()) {
            if edge_lt(other.upper(), self.upper()) {
                BinaryResult::Two(self.part_below(other), self.part_above(other))
            } else {
                BinaryResult::One(self.part_below(other))
            }
        } else if edge_lt(other.upper(), self.upper()) {
            BinaryResult::One(self.part_above(other))
        } else {
            BinaryResult::Empty
        }
    }

    /// Takes `other` away from `self`. What is left is nothing, one interval
    /// or two; each piece carries the `reverse` flag of `self`.
    pub fn subtract(self, other: Self) -> (r: BinaryResult<T>)
        ensures
            lawful::<T>() ==> r == self.spec_subtract(other),
            lawful::<T>() && other.spec_is_empty() ==> r == BinaryResult::One(self),
            is_total_order::<T>() && other == self && self.wf() && !self.spec_is_empty() ==> r
                == BinaryResult::<T>::Empty,
    {
        proof {
            if is_total_order::<T>() && other == self && self.wf() && !self.spec_is_empty() {
                lemma_subtract_self(self);
            }
        }
        if other.is_empty() {
            return BinaryResult::One(self);
        }
        if !self.is_comparable_with(&other) {
            return BinaryResult::Empty;
        }
        if edge_at_most(&other.end, true, &self.start, false) || edge_at_most(
            &self.end,
            true,
            &other.start,
            false,
        ) {
            return BinaryResult::One(self);
        }
        let below = edge_before(&self.start, false, &other.start, false);
        let above = edge_before(&other.end, true, &self.end, true);
        let RangeInterval { reverse, start, end } = self;
        let RangeInterval { reverse: _, start: other_start, end: other_end } = other;
        if below {
            if above {
                BinaryResult::Two(
                    RangeInterval { reverse, start, end: flip(other_start) },
                    RangeInterval { reverse, start: flip(other_end), end },
                )
            } else {
                BinaryResult::One(RangeInterval { reverse, start, end: flip(other_start) })
            }
        } else if above {
            BinaryResult::One(RangeInterval { reverse, start: flip(other_end), end })
        } else {
            BinaryResult::Empty
        }
    }
}

impl<T: PartialOrd> std::ops::Sub<RangeInterval<T>> for RangeInterval<T> {
    type Output = BinaryResult<T>;

    /// `a - b` is `a.subtract(b)`.
    fn sub(self, other: RangeInterval<T>) -> (r: BinaryResult<T>) {
        self.subtract(other)
    }
}

impl<T: PartialOrd> vstd::std_specs::ops::SubSpecImpl<RangeInterval<T>> for RangeInterval<T> {
    open spec fn obeys_sub_spec() -> bool {
        lawful::<T>()
    }

    open spec fn sub_req(self, other: RangeInterval<T>) -> bool {
        true
    }

    open spec fn sub_spec(self, other: RangeInterval<T>) -> BinaryResult<T> {
        self.spec_subtract(other)
    }
}

/// An interval that is not empty, without itself, is nothing.
pub proof fn lemma_subtract_self<T: PartialOrd>(a: RangeInterval<T>)
    requires
        is_total_order::<T>(),
        a.wf(),
        !a.spec_is_empty(),
    ensures
        a.spec_subtract(a) == BinaryResult::<T>::Empty,
{
    lemma_edges_of_two(a.lower(), a.upper(), a.lower(), a.upper());
    a.lemma_stretch();
}

/// Without an empty interval every interval is left as it was.
pub proof fn lemma_subtract_empty<T: PartialOrd>(a: RangeInterval<T>, b: RangeInterval<T>)
    requires
        b.spec_is_empty(),
    ensures
        a.spec_subtract(b) == BinaryResult::One(a),
{
}

/// Without an interval that lies wholly below or above it, an interval is
/// left as it was.
pub proof fn lemma_subtract_disjoint<T: PartialOrd>(a: RangeInterval<T>, b: RangeInterval<T>)
    requires
        is_total_order::<T>(),
        a.spec_classify(b) is Less || a.spec_classify(b) is Greater,
    ensures
        a.spec_subtract(b) == BinaryResult::One(a),
{
    lemma_edges_of_two(a.lower(), a.upper(), b.lower(), b.upper());
}

/// Without an interval that it lies within, or that is the same, nothing of
/// an interval is left.
pub proof fn lemma_subtract_covered<T: PartialOrd>(a: RangeInterval<T>, b: RangeInterval<T>)
    requires
        is_total_order::<T>(),
        a.wf(),
        b.wf(),
        a.spec_classify(b) is Within || a.spec_classify(b) is Same,
    ensures
        a.spec_subtract(b) == BinaryResult::<T>::Empty,
{
    lemma_edges_of_two(a.lower(), a.upper(), b.lower(), b.upper());
    a.lemma_stretch();
    b.lemma_stretch();
}

/// The pieces that a subtraction leaves are well-formed and not empty, and
/// where there are two, the first stops before the second begins.
pub proof fn lemma_subtract_pieces<T: PartialOrd>(a: RangeInterval<T>, b: RangeInterval<T>)
    requires
        is_total_order::<T>(),
        a.wf(),
        b.wf(),
        !a.spec_is_empty(),
    ensures
        match a.spec_subtract(b) {
            BinaryResult::Empty => true,
            BinaryResult::One(p) => p.wf() && !p.spec_is_empty(),
            BinaryResult::Two(p, q) => {
                &&& p.wf() && !p.spec_is_empty()
                &&& q.wf() && !q.spec_is_empty()
                &&& edge_lt(p.upper(), q.lower())
            },
        },
{
    lemma_edges_of_two(a.lower(), a.upper(), b.lower(), b.upper());
    a.lemma_stretch();
    b.lemma_stretch();
    if !b.spec_is_empty() {
        let p = a.part_below(b);
        let q = a.part_above(b);
        if edge_lt(a.lower(), b.lower()) {
            assert(p.upper() == b.lower());
            p.lemma_wf_from_stretch();
            p.lemma_stretch();
        }
        if edge_lt(b.upper(), a.upper()) {
            assert(q.lower() == b.upper());
            q.lemma_wf_from_stretch();
            q.lemma_stretch();
        }
    }
}

/// Subtraction is the difference of sets: a value lies in what is left
/// exactly where it lies in the first interval and not in the second.
pub proof fn lemma_subtract_is_difference<T: PartialOrd>(
    a: RangeInterval<T>,
    b: RangeInterval<T>,
    v: T,
)
    requires
        is_total_order::<T>(),
        a.wf(),
        b.wf(),
    ensures
        a.spec_subtract(b).spec_contains(v) <==> a.spec_contains(v) && !b.spec_contains(v),
{
    let at = Edge::At(v);
    lemma_edges_of_two(a.lower(), a.upper(), b.lower(), b.upper());
    lemma_edges_of_two(a.lower(), a.upper(), b.lower(), at);
    lemma_edges_of_two(a.lower(), a.upper(), b.upper(), at);
    lemma_edges_of_two(a.lower(), b.lower(), b.upper(), at);
    lemma_edges_of_two(a.upper(), b.lower(), b.upper(), at);
    a.lemma_stretch();
    b.lemma_stretch();
    a.lemma_contains(v);
    b.lemma_contains(v);
    a.part_below(b).lemma_contains(v);
    a.part_above(b).lemma_contains(v);
}

} // verus!

//! The places where intervals begin and stop, and their order.
use vstd::prelude::*;
use std::ops::Bound;
use crate::order::is_total_order;
use crate::order::lawful;
use crate::order::le;
use crate::order::lemma_compare;
use crate::order::lemma_transitive;
use crate::order::lt;
use crate::order::same;
use crate::range_interval::bound_value;

verus! {

/// A place on the line of values, extended by the two infinities and, for
/// each value, by the place just after it. Every interval is the set of
/// values `v` with `lower <= At(v) < upper` for two such places.
#[verifier::reject_recursive_types(T)]
pub enum Edge<T> {
    /// Before every value.
    NegInf,
    /// The value itself.
    At(T),
    /// Just after the value, before every higher one.
    After(T),
    /// After every value.
    PosInf,
}

/// The place where an interval with this start bound begins.
pub open spec fn lower_edge<T>(b: Bound<T>) -> Edge<T> {
    match b {
        Bound::Unbounded => Edge::NegInf,
        Bound::Included(v) => Edge::At(v),
        Bound::Excluded(v) => Edge::After(v),
    }
}

/// The place before which an interval with this end bound stops.
pub open spec fn upper_edge<T>(b: Bound<T>) -> Edge<T> {
    match b {
        Bound::Unbounded => Edge::PosInf,
        Bound::Included(v) => Edge::After(v),
        Bound::Excluded(v) => Edge::At(v),
    }
}

/// The place that a bound stands for, as an end bound or as a start bound.
pub open spec fn edge_of<T>(b: Bound<T>, upper: bool) -> Edge<T> {
    if upper {
        upper_edge(b)
    } else {
        lower_edge(b)
    }
}

/// `p` comes strictly before `q`.
pub open spec fn edge_lt<T: PartialOrd>(p: Edge<T>, q: Edge<T>) -> bool {
    match (p, q) {
        (_, Edge::NegInf) => false,
        (Edge::NegInf, _) => true,
        (Edge::PosInf, _) => false,
        (_, Edge::PosInf) => true,
        (Edge::At(a), Edge::After(b)) => le(a, b),
        (Edge::At(a), Edge::At(b)) => lt(a, b),
        (Edge::After(a), Edge::At(b)) => lt(a, b),
        (Edge::After(a), Edge::After(b)) => lt(a, b),
    }
}

/// `p` and `q` are the same place.
pub open spec fn edge_eq<T: PartialOrd>(p: Edge<T>, q: Edge<T>) -> bool {
    match (p, q) {
        (Edge::NegInf, Edge::NegInf) => true,
        (Edge::PosInf, Edge::PosInf) => true,
        (Edge::At(a), Edge::At(b)) => same(a, b),
        (Edge::After(a), Edge::After(b)) => same(a, b),
        _ => false,
    }
}

/// `p` comes before `q` or is the same place.
pub open spec fn edge_le<T: PartialOrd>(p: Edge<T>, q: Edge<T>) -> bool {
    edge_lt(p, q) || edge_eq(p, q)
}

/// The order knows how `p` and `q` lie to each other. It always does where
/// the order is total; under a partial order two values may be unordered.
pub open spec fn edge_comparable<T: PartialOrd>(p: Edge<T>, q: Edge<T>) -> bool {
    edge_lt(p, q) || edge_eq(p, q) || edge_lt(q, p)
}

/// The value that a bound carries, borrowed.
pub(crate) fn value_of<T>(b: &Bound<T>) -> (r: Option<&T>)
    ensures
        r.is_some() == bound_value(*b).is_some(),
        r matches Some(v) ==> bound_value(*b) == Some(*v),
{
    match b {
        Bound::Unbounded => None,
        Bound::Included(v) => Some(v),
        Bound::Excluded(v) => Some(v),
    }
}

/// Whether the edge of `b` is the place just after its value.
pub(crate) fn stands_after<T>(b: &Bound<T>, upper: bool) -> (r: bool)
    ensures
        r == (edge_of(*b, upper) is After),
{
    match b {
        Bound::Unbounded => false,
        Bound::Included(_) => upper,
        Bound::Excluded(_) => !upper,
    }
}

/// Compares the places of two bounds, each taken as an end bound (`upper`) or
/// as a start bound.
pub(crate) fn edge_before<T: PartialOrd>(
    p: &Bound<T>,
    p_upper: bool,
    q: &Bound<T>,
    q_upper: bool,
) -> (r: bool)
    ensures
        lawful::<T>() ==> r == edge_lt(edge_of(*p, p_upper), edge_of(*q, q_upper)),
{
    match (value_of(p), value_of(q)) {
        (None, None) => !p_upper && q_upper,
        (None, Some(_)) => !p_upper,
        (Some(_), None) => q_upper,
        (Some(a), Some(b)) => {
            if !stands_after(p, p_upper) && stands_after(q, q_upper) {
                *a <= *b
            } else {
                *a < *b
            }
        },
    }
}

/// Tells whether the place of `p` is that of `q` or comes before it.
pub(crate) fn edge_at_most<T: PartialOrd>(
    p: &Bound<T>,
    p_upper: bool,
    q: &Bound<T>,
    q_upper: bool,
) -> (r: bool)
    ensures
        lawful::<T>() ==> r == edge_le(edge_of(*p, p_upper), edge_of(*q, q_upper)),
{
    edge_before(p, p_upper, q, q_upper) || edge_same(p, p_upper, q, q_upper)
}

/// Tells whether the order knows how the places of two bounds lie to each
/// other.
pub(crate) fn edges_ordered<T: PartialOrd>(
    p: &Bound<T>,
    p_upper: bool,
    q: &Bound<T>,
    q_upper: bool,
) -> (r: bool)
    ensures
        lawful::<T>() ==> r == edge_comparable(edge_of(*p, p_upper), edge_of(*q, q_upper)),
{
    edge_before(p, p_upper, q, q_upper) || edge_same(p, p_upper, q, q_upper) || edge_before(
        q,
        q_upper,
        p,
        p_upper,
    )
}

/// Tells whether two bounds stand for the same place.
pub(crate) fn edge_same<T: PartialOrd>(
    p: &Bound<T>,
    p_upper: bool,
    q: &Bound<T>,
    q_upper: bool,
) -> (r: bool)
    ensures
        lawful::<T>() ==> r == edge_eq(edge_of(*p, p_upper), edge_of(*q, q_upper)),
{
    match (value_of(p), value_of(q)) {
        (None, None) => p_upper == q_upper,
        (None, Some(_)) => false,
        (Some(_), None) => false,
        (Some(a), Some(b)) => stands_after(p, p_upper) == stands_after(q, q_upper) && *a == *b,
    }
}

/// The value at or just before a place, where there is one.
pub open spec fn edge_value<T>(p: Edge<T>) -> Option<T> {
    match p {
        Edge::At(v) => Some(v),
        Edge::After(v) => Some(v),
        _ => None,
    }
}

/// Over a total order two places are the same, or one comes before the
/// other, and never both.
pub proof fn lemma_edge_trichotomy<T: PartialOrd>(p: Edge<T>, q: Edge<T>)
    requires
        is_total_order::<T>(),
    ensures
        edge_eq(p, q) <==> p == q,
        edge_lt(p, q) || p == q || edge_lt(q, p),
        !(edge_lt(p, q) && edge_lt(q, p)),
        !(edge_lt(p, q) && p == q),
        !(edge_lt(q, p) && p == q),
        edge_le(p, q) <==> !edge_lt(q, p),
{
    match (edge_value(p), edge_value(q)) {
        (Some(a), Some(b)) => {
            lemma_compare(a, b);
            lemma_compare(b, a);
        },
        _ => {},
    }
}

/// From `p` through `q` to `r` the order carries over.
pub open spec fn edges_chain<T: PartialOrd>(p: Edge<T>, q: Edge<T>, r: Edge<T>) -> bool {
    &&& edge_lt(p, q) && edge_lt(q, r) ==> edge_lt(p, r)
    &&& edge_le(p, q) && edge_lt(q, r) ==> edge_lt(p, r)
    &&& edge_lt(p, q) && edge_le(q, r) ==> edge_lt(p, r)
    &&& edge_le(p, q) && edge_le(q, r) ==> edge_le(p, r)
}

proof fn lemma_edges_chain<T: PartialOrd>(p: Edge<T>, q: Edge<T>, r: Edge<T>)
    requires
        is_total_order::<T>(),
    ensures
        edges_chain(p, q, r),
{
    lemma_edge_trichotomy(p, q);
    lemma_edge_trichotomy(q, r);
    lemma_edge_trichotomy(p, r);
    match (edge_value(p), edge_value(q), edge_value(r)) {
        (Some(a), Some(b), Some(c)) => {
            lemma_compare(a, b);
            lemma_compare(b, c);
            lemma_compare(a, c);
            lemma_transitive(a, b, c);
        },
        _ => {},
    }
}

/// Over a total order the places are ordered transitively, in whatever
/// order three of them are taken.
pub proof fn lemma_edge_transitive<T: PartialOrd>(p: Edge<T>, q: Edge<T>, r: Edge<T>)
    requires
        is_total_order::<T>(),
    ensures
        edges_chain(p, q, r),
        edges_chain(p, r, q),
        edges_chain(q, p, r),
        edges_chain(q, r, p),
        edges_chain(r, p, q),
        edges_chain(r, q, p),
{
    lemma_edges_chain(p, q, r);
    lemma_edges_chain(p, r, q);
    lemma_edges_chain(q, p, r);
    lemma_edges_chain(q, r, p);
    lemma_edges_chain(r, p, q);
    lemma_edges_chain(r, q, p);
}

/// Over a total order the four places where two intervals begin and stop
/// are ordered like points of a line.
pub proof fn lemma_edges_of_two<T: PartialOrd>(a: Edge<T>, b: Edge<T>, x: Edge<T>, y: Edge<T>)
    requires
        is_total_order::<T>(),
    ensures
        edge_eq(a, b) <==> a == b,
        edge_eq(a, x) <==> a == x,
        edge_eq(a, y) <==> a == y,
        edge_eq(b, x) <==> b == x,
        edge_eq(b, y) <==> b == y,
        edge_eq(x, y) <==> x == y,
        edge_lt(a, b) || a == b || edge_lt(b, a),
        edge_lt(a, x) || a == x || edge_lt(x, a),
        edge_lt(a, y) || a == y || edge_lt(y, a),
        edge_lt(b, x) || b == x || edge_lt(x, b),
        edge_lt(b, y) || b == y || edge_lt(y, b),
        edge_lt(x, y) || x == y || edge_lt(y, x),
        !edge_lt(a, a) && !edge_lt(b, b) && !edge_lt(x, x) && !edge_lt(y, y),
        !(edge_lt(a, b) && edge_lt(b, a)),
        !(edge_lt(a, x) && edge_lt(x, a)),
        !(edge_lt(a, y) && edge_lt(y, a)),
        !(edge_lt(b, x) && edge_lt(x, b)),
        !(edge_lt(b, y) && edge_lt(y, b)),
        !(edge_lt(x, y) && edge_lt(y, x)),
        edge_lt(a, b) && edge_lt(b, x) ==> edge_lt(a, x),
        edge_lt(a, b) && edge_lt(b, y) ==> edge_lt(a, y),
        edge_lt(a, x) && edge_lt(x, b) ==> edge_lt(a, b),
        edge_lt(a, x) && edge_lt(x, y) ==> edge_lt(a, y),
        edge_lt(a, y) && edge_lt(y, b) ==> edge_lt(a, b),
        edge_lt(a, y) && edge_lt(y, x) ==> edge_lt(a, x),
        edge_lt(b, a) && edge_lt(a, x) ==> edge_lt(b, x),
        edge_lt(b, a) && edge_lt(a, y) ==> edge_lt(b, y),
        edge_lt(b, x) && edge_lt(x, a) ==> edge_lt(b, a),
        edge_lt(b, x) && edge_lt(x, y) ==> edge_lt(b, y),
        edge_lt(b, y) && edge_lt(y, a) ==> edge_lt(b, a),
        edge_lt(b, y) && edge_lt(y, x) ==> edge_lt(b, x),
        edge_lt(x, a) && edge_lt(a, b) ==> edge_lt(x, b),
        edge_lt(x, a) && edge_lt(a, y) ==> edge_lt(x, y),
        edge_lt(x, b) && edge_lt(b, a) ==> edge_lt(x, a),
        edge_lt(x, b) && edge_lt(b, y) ==> edge_lt(x, y),
        edge_lt(x, y) && edge_lt(y, a) ==> edge_lt(x, a),
        edge_lt(x, y) && edge_lt(y, b) ==> edge_lt(x, b),
        edge_lt(y, a) && edge_lt(a, b) ==> edge_lt(y, b),
        edge_lt(y, a) && edge_lt(a, x) ==> edge_lt(y, x),
        edge_lt(y, b) && edge_lt(b, a) ==> edge_lt(y, a),
        edge_lt(y, b) && edge_lt(b, x) ==> edge_lt(y, x),
        edge_lt(y, x) && edge_lt(x, a) ==> edge_lt(y, a),
        edge_lt(y, x) && edge_lt(x, b) ==> edge_lt(y, b),
{
    lemma_edge_trichotomy(a, a);
    lemma_edge_trichotomy(b, b);
    lemma_edge_trichotomy(x, x);
    lemma_edge_trichotomy(y, y);
    lemma_edge_trichotomy(a, b);
    lemma_edge_trichotomy(a, x);
    lemma_edge_trichotomy(a, y);
    lemma_edge_trichotomy(b, x);
    lemma_edge_trichotomy(b, y);
    lemma_edge_trichotomy(x, y);
    lemma_edge_transitive(a, b, x);
    lemma_edge_transitive(a, b, y);
    lemma_edge_transitive(a, x, y);
    lemma_edge_transitive(b, x, y);
}

} // verus!

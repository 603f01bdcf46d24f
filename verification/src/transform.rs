//! Intervals over one type of value made into intervals over another.
use vstd::prelude::*;
use vstd::std_specs::convert::FromSpec;
use std::ops::Bound;
use crate::range_interval::RangeInterval;

verus! {

/// `to` is a bound of the same kind as `from`, with a value that `f` may
/// give for the value of `from`.
pub open spec fn bound_mapped<T, R, F: Fn(&T) -> R>(f: F, from: Bound<T>, to: Bound<R>) -> bool {
    match (from, to) {
        (Bound::Unbounded, Bound::Unbounded) => true,
        (Bound::Included(a), Bound::Included(b)) => call_ensures(f, (&a,), b),
        (Bound::Excluded(a), Bound::Excluded(b)) => call_ensures(f, (&a,), b),
        _ => false,
    }
}

/// `f` accepts the value of `b`, where `b` has one.
pub open spec fn bound_accepted<T, R, F: Fn(&T) -> R>(f: F, b: Bound<T>) -> bool {
    match b {
        Bound::Unbounded => true,
        Bound::Included(a) => call_requires(f, (&a,)),
        Bound::Excluded(a) => call_requires(f, (&a,)),
    }
}

/// The bound of the same kind whose value is converted by `From`.
pub open spec fn bound_converted<T, F: From<T>>(b: Bound<T>) -> Bound<F> {
    match b {
        Bound::Unbounded => Bound::Unbounded,
        Bound::Included(v) => Bound::Included(F::from_spec(v)),
        Bound::Excluded(v) => Bound::Excluded(F::from_spec(v)),
    }
}

fn map_bound<T, R, F: Fn(&T) -> R>(b: &Bound<T>, f: &F) -> (r: Bound<R>)
    requires
        bound_accepted(*f, *b),
    ensures
        bound_mapped(*f, *b, r),
{
    match b {
        Bound::Unbounded => Bound::Unbounded,
        Bound::Included(a) => Bound::Included(f(a)),
        Bound::Excluded(a) => Bound::Excluded(f(a)),
    }
}

fn into_bound<T, F: From<T>>(bound: Bound<T>) -> (r: Bound<F>)
    ensures
        F::obeys_from_spec() ==> r == bound_converted::<T, F>(bound),
{
    match bound {
        Bound::Unbounded => Bound::Unbounded,
        Bound::Included(v) => Bound::Included(F::from(v)),
        Bound::Excluded(v) => Bound::Excluded(F::from(v)),
    }
}

impl<T> RangeInterval<T> {
    /// The interval whose bounds are of the same kinds, with each value
    /// converted by `From`; the `reverse` flag is kept.
    pub fn into<F: From<T>>(self) -> (r: RangeInterval<F>)
        ensures
            F::obeys_from_spec() ==> r == (RangeInterval {
                reverse: self.reverse,
                start: bound_converted::<T, F>(self.start),
                end: bound_converted::<T, F>(self.end),
            }),
    {
        RangeInterval {
            reverse: self.reverse,
            start: into_bound(self.start),
            end: into_bound(self.end),
        }
    }

    /// The interval whose bounds are of the same kinds, with `f` applied to
    /// each value, first to that of `start`; the `reverse` flag is kept and
    /// the bounds are not put in order again.
    pub fn map<R, F: Fn(&T) -> R>(&self, f: F) -> (r: RangeInterval<R>)
        requires
            bound_accepted(f, self.start),
            bound_accepted(f, self.end),
        ensures
            r.reverse == self.reverse,
            bound_mapped(f, self.start, r.start),
            bound_mapped(f, self.end, r.end),
    {
        let start = map_bound(&self.start, &f);
        let end = map_bound(&self.end, &f);
        RangeInterval { start, end, reverse: self.reverse }
    }
}

} // verus!

//! Pushing a value out of an interval.
use vstd::prelude::*;
use std::ops::Bound;
use crate::order::is_total_order;
use crate::order::lawful;
use crate::order::lemma_compare;
use crate::range_interval::RangeInterval;
use crate::successor::is_step;
use crate::successor::Successor;

verus! {

/// What is to be done with a value that must not lie in an interval.
#[verifier::reject_recursive_types(T)]
pub enum Escape<T> {
    /// The value lies outside already and is kept.
    Keep,
    /// The interval has no end on the side asked for.
    Nowhere,
    /// The bound on the side asked for excludes its value: that value lies
    /// outside.
    Onto(T),
    /// The bound on the side asked for includes its value: one step past it
    /// lies outside.
    Past(T),
}

impl<T: PartialOrd> RangeInterval<T> {
    /// How `value` gets out of the interval, towards the end of the interval
    /// or towards its start.
    pub open spec fn spec_escape(self, value: T, direction_end: bool) -> Escape<T> {
        if self.start is Unbounded && self.end is Unbounded {
            Escape::Nowhere
        } else if !self.spec_contains(value) {
            Escape::Keep
        } else {
            match (if direction_end {
                self.end
            } else {
                self.start
            }) {
                Bound::Unbounded => Escape::Nowhere,
                Bound::Excluded(b) => Escape::Onto(b),
                Bound::Included(b) => Escape::Past(b),
            }
        }
    }
}

/// A value that is kept lies outside the interval, and so does the value of
/// an excluding bound that a value is moved onto; a value that has to step
/// past a bound, or has nowhere to go, lies inside.
pub proof fn lemma_escape_outside<T: PartialOrd>(
    a: RangeInterval<T>,
    value: T,
    direction_end: bool,
)
    requires
        is_total_order::<T>(),
    ensures
        match a.spec_escape(value, direction_end) {
            Escape::Keep => !a.spec_contains(value),
            Escape::Onto(b) => !a.spec_contains(b),
            Escape::Nowhere => a.spec_contains(value),
            Escape::Past(b) => a.spec_contains(value),
        },
{
    match a.spec_escape(value, direction_end) {
        Escape::Onto(b) => {
            lemma_compare(b, b);
        },
        _ => {},
    }
}

impl<T: PartialOrd + Clone> RangeInterval<T> {
    /// A value outside the interval: `value` itself where it lies outside,
    /// else the nearest value past the end of the interval (`direction_end`)
    /// or before its start. Past a bound that includes its value the step is
    /// taken by `included`, which is given the bound's value and the
    /// direction. `None` where the interval is unbounded on both sides or on
    /// the side asked for, or where `included` finds no value.
    pub fn avoid_with<F: Fn(&T, bool) -> Option<T>>(
        &self,
        value: T,
        direction_end: bool,
        included: F,
    ) -> (r: Option<T>)
        requires
            (if direction_end {
                self.end
            } else {
                self.start
            }) matches Bound::Included(b) ==> call_requires(included, (&b, direction_end)),
        ensures
            lawful::<T>() ==> match self.spec_escape(value, direction_end) {
                Escape::Keep => r == Some(value),
                Escape::Nowhere => r is None,
                Escape::Onto(b) => r is Some && cloned(b, r->Some_0),
                Escape::Past(b) => call_ensures(included, (&b, direction_end), r),
            },
    {
        if let Bound::Unbounded = &self.start {
            if let Bound::Unbounded = &self.end {
                return None;
            }
        }
        let above_start = match &self.start {
            Bound::Unbounded => true,
            Bound::Included(a) => *a <= value,
            Bound::Excluded(a) => *a < value,
        };
        let below_end = match &self.end {
            Bound::Unbounded => true,
            Bound::Included(b) => value <= *b,
            Bound::Excluded(b) => value < *b,
        };
        if !(above_start && below_end) {
            return Some(value);
        }
        let side = if direction_end {
            &self.end
        } else {
            &self.start
        };
        match side {
            Bound::Unbounded => None,
            Bound::Excluded(b) => Some(b.clone()),
            Bound::Included(b) => included(b, direction_end),
        }
    }
}

impl<T: PartialOrd + Successor + Clone> RangeInterval<T> {
    /// A value outside the interval: `value` itself where it lies outside,
    /// else the nearest value past the end of the interval (`direction_end`)
    /// or before its start, one step past a bound that includes its value.
    /// `None` where the interval is unbounded on both sides or on the side
    /// asked for, or where there is no value one step further.
    pub fn avoid(&self, value: T, direction_end: bool) -> (r: Option<T>)
        ensures
            lawful::<T>() ==> match self.spec_escape(value, direction_end) {
                Escape::Keep => r == Some(value),
                Escape::Nowhere => r is None,
                Escape::Onto(b) => r is Some && cloned(b, r->Some_0),
                Escape::Past(b) => is_step(b, direction_end, r),
            },
    {
        let step = |v: &T, towards_end: bool| -> (s: Option<T>)
            ensures
                is_step(*v, towards_end, s),
            {
                if towards_end {
                    v.next()
                } else {
                    v.prev()
                }
            };
        self.avoid_with(value, direction_end, step)
    }
}

} // verus!

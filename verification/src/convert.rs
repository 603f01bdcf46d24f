//! Intervals from the range types of std, and back.
//!
//! A `Range` or a `RangeInclusive` written from its higher value to its lower
//! one becomes a reversed interval, and comes back as it was written. Going
//! back fails where the interval has not the shape of the range type asked
//! for; the interval is then handed back unchanged.
use vstd::prelude::*;
use vstd::std_specs::convert::FromSpecImpl;
use std::ops::Bound;
use std::ops::Range;
use std::ops::RangeFrom;
use std::ops::RangeFull;
use std::ops::RangeTo;
use std::ops::RangeToInclusive;
use crate::order::gt;
use crate::order::is_total_order;
use crate::order::lawful;
use crate::order::lemma_compare;
use crate::range_interval::RangeInterval;
use crate::range_interval::RangeType;

verus! {

impl<T> RangeInterval<T> {
    /// The `Range` that this interval stands for: one that includes its start
    /// and excludes its end, or the reverse of one.
    pub open spec fn spec_to_range(self) -> Option<Range<T>> {
        match (self.reverse, self.start, self.end) {
            (true, Bound::Excluded(end), Bound::Included(start)) => Some(Range { start, end }),
            (false, Bound::Included(start), Bound::Excluded(end)) => Some(Range { start, end }),
            _ => None,
        }
    }

    /// The two values of the `RangeInclusive` that this interval stands for,
    /// in the order in which the range was written.
    pub open spec fn spec_to_range_inclusive(self) -> Option<(T, T)> {
        match (self.reverse, self.start, self.end) {
            (true, Bound::Included(end), Bound::Included(start)) => Some((start, end)),
            (false, Bound::Included(start), Bound::Included(end)) => Some((start, end)),
            _ => None,
        }
    }

    /// The `RangeFrom` that this interval stands for.
    pub open spec fn spec_to_range_from(self) -> Option<RangeFrom<T>> {
        match (self.start, self.end) {
            (Bound::Included(start), Bound::Unbounded) => Some(RangeFrom { start }),
            _ => None,
        }
    }

    /// The `RangeFull` that this interval stands for.
    pub open spec fn spec_to_range_full(self) -> Option<RangeFull> {
        match (self.start, self.end) {
            (Bound::Unbounded, Bound::Unbounded) => Some(RangeFull),
            _ => None,
        }
    }

    /// The `RangeTo` that this interval stands for.
    pub open spec fn spec_to_range_to(self) -> Option<RangeTo<T>> {
        match (self.start, self.end) {
            (Bound::Unbounded, Bound::Excluded(end)) => Some(RangeTo { end }),
            _ => None,
        }
    }

    /// The `RangeToInclusive` that this interval stands for.
    pub open spec fn spec_to_range_to_inclusive(self) -> Option<RangeToInclusive<T>> {
        match (self.start, self.end) {
            (Bound::Unbounded, Bound::Included(end)) => Some(RangeToInclusive { end }),
            _ => None,
        }
    }

    /// The interval as a `Range`, in the orientation it was written in;
    /// `Err` with the interval itself where it has another shape.
    pub fn try_to_range(self) -> (r: Result<Range<T>, Self>)
        ensures
            match self.spec_to_range() {
                Some(range) => r == Ok::<Range<T>, Self>(range),
                None => r == Err::<Range<T>, Self>(self),
            },
    {
        match (self.reverse, self.start, self.end) {
            (true, Bound::Excluded(end), Bound::Included(start)) => Ok(Range { start, end }),
            (false, Bound::Included(start), Bound::Excluded(end)) => Ok(Range { start, end }),
            (reverse, start, end) => Err(RangeInterval { reverse, start, end }),
        }
    }

    /// The interval as a `RangeInclusive`, in the orientation it was written
    /// in; `Err` with the interval itself where it has another shape.
    pub fn try_to_range_inclusive(self) -> (r: Result<std::ops::RangeInclusive<T>, Self>)
        ensures
            match self.spec_to_range_inclusive() {
                Some((start, end)) => r is Ok && r->Ok_0@.start == start && r->Ok_0@.end == end
                    && !r->Ok_0@.exhausted,
                None => r == Err::<std::ops::RangeInclusive<T>, Self>(self),
            },
    {
        match (self.reverse, self.start, self.end) {
            (true, Bound::Included(end), Bound::Included(start)) => Ok(
                std::ops::RangeInclusive::new(start, end),
            ),
            (false, Bound::Included(start), Bound::Included(end)) => Ok(
                std::ops::RangeInclusive::new(start, end),
            ),
            (reverse, start, end) => Err(RangeInterval { reverse, start, end }),
        }
    }

    /// The interval as a `RangeFrom`; `Err` with the interval itself where it
    /// has another shape.
    pub fn try_to_range_from(self) -> (r: Result<RangeFrom<T>, Self>)
        ensures
            match self.spec_to_range_from() {
                Some(range) => r == Ok::<RangeFrom<T>, Self>(range),
                None => r == Err::<RangeFrom<T>, Self>(self),
            },
    {
        match (self.reverse, self.start, self.end) {
            (_, Bound::Included(start), Bound::Unbounded) => Ok(RangeFrom { start }),
            (reverse, start, end) => Err(RangeInterval { reverse, start, end }),
        }
    }

    /// The interval as a `RangeFull`; `Err` with the interval itself where it
    /// has another shape.
    pub fn try_to_range_full(self) -> (r: Result<RangeFull, Self>)
        ensures
            match self.spec_to_range_full() {
                Some(range) => r == Ok::<RangeFull, Self>(range),
                None => r == Err::<RangeFull, Self>(self),
            },
    {
        match (self.reverse, self.start, self.end) {
            (_, Bound::Unbounded, Bound::Unbounded) => Ok(RangeFull),
            (reverse, start, end) => Err(RangeInterval { reverse, start, end }),
        }
    }

    /// The interval as a `RangeTo`; `Err` with the interval itself where it
    /// has another shape.
    pub fn try_to_range_to(self) -> (r: Result<RangeTo<T>, Self>)
        ensures
            match self.spec_to_range_to() {
                Some(range) => r == Ok::<RangeTo<T>, Self>(range),
                None => r == Err::<RangeTo<T>, Self>(self),
            },
    {
        match (self.reverse, self.start, self.end) {
            (_, Bound::Unbounded, Bound::Excluded(end)) => Ok(RangeTo { end }),
            (reverse, start, end) => Err(RangeInterval { reverse, start, end }),
        }
    }

    /// The interval as a `RangeToInclusive`; `Err` with the interval itself
    /// where it has another shape.
    pub fn try_to_range_to_inclusive(self) -> (r: Result<RangeToInclusive<T>, Self>)
        ensures
            match self.spec_to_range_to_inclusive() {
                Some(range) => r == Ok::<RangeToInclusive<T>, Self>(range),
                None => r == Err::<RangeToInclusive<T>, Self>(self),
            },
    {
        match (self.reverse, self.start, self.end) {
            (_, Bound::Unbounded, Bound::Included(end)) => Ok(RangeToInclusive { end }),
            (reverse, start, end) => Err(RangeInterval { reverse, start, end }),
        }
    }

    /// The interval as a `Range`, where it has that shape.
    pub fn to_range(self) -> (r: Option<Range<T>>)
        ensures
            r == self.spec_to_range(),
    {
        match self.try_to_range() {
            Ok(range) => Some(range),
            Err(_) => None,
        }
    }

    /// The interval as a `RangeInclusive`, where it has that shape.
    pub fn to_range_inclusive(self) -> (r: Option<std::ops::RangeInclusive<T>>)
        ensures
            match self.spec_to_range_inclusive() {
                Some((start, end)) => r is Some && r->Some_0@.start == start && r->Some_0@.end
                    == end && !r->Some_0@.exhausted,
                None => r is None,
            },
    {
        match self.try_to_range_inclusive() {
            Ok(range) => Some(range),
            Err(_) => None,
        }
    }

    /// The interval as a `RangeFrom`, where it has that shape.
    pub fn to_range_from(self) -> (r: Option<RangeFrom<T>>)
        ensures
            r == self.spec_to_range_from(),
    {
        match self.try_to_range_from() {
            Ok(range) => Some(range),
            Err(_) => None,
        }
    }

    /// The interval as a `RangeFull`, where it has that shape.
    pub fn to_range_full(self) -> (r: Option<RangeFull>)
        ensures
            r == self.spec_to_range_full(),
    {
        match self.try_to_range_full() {
            Ok(range) => Some(range),
            Err(_) => None,
        }
    }

    /// The interval as a `RangeTo`, where it has that shape.
    pub fn to_range_to(self) -> (r: Option<RangeTo<T>>)
        ensures
            r == self.spec_to_range_to(),
    {
        match self.try_to_range_to() {
            Ok(range) => Some(range),
            Err(_) => None,
        }
    }

    /// The interval as a `RangeToInclusive`, where it has that shape.
    pub fn to_range_to_inclusive(self) -> (r: Option<RangeToInclusive<T>>)
        ensures
            r == self.spec_to_range_to_inclusive(),
    {
        match self.try_to_range_to_inclusive() {
            Ok(range) => Some(range),
            Err(_) => None,
        }
    }
}

impl<T: PartialOrd> RangeInterval<T> {
    /// The interval between two values of which the first is included and
    /// the second is included or not; reversed where the first is above the
    /// second, and then it is the lower bound that is open or closed as the
    /// second value was.
    pub open spec fn spec_from_values(first: T, second: T, second_included: bool) -> Self {
        let second_bound = if second_included {
            Bound::Included(second)
        } else {
            Bound::Excluded(second)
        };
        if gt(first, second) {
            RangeInterval { reverse: true, start: second_bound, end: Bound::Included(first) }
        } else {
            RangeInterval { reverse: false, start: Bound::Included(first), end: second_bound }
        }
    }
}

impl<T: PartialOrd> RangeInterval<T> {
    /// The interval that `a..b` becomes.
    pub open spec fn spec_from_range(range: Range<T>) -> Self {
        Self::spec_from_values(range.start, range.end, false)
    }

    /// The interval that `a..=b` becomes.
    pub open spec fn spec_from_range_inclusive(range: std::ops::RangeInclusive<T>) -> Self {
        Self::spec_from_values(range@.start, range@.end, true)
    }
}

impl<T> RangeInterval<T> {
    /// The interval that `a..` becomes.
    pub open spec fn spec_from_range_from(range: RangeFrom<T>) -> Self {
        RangeInterval { reverse: false, start: Bound::Included(range.start), end: Bound::Unbounded }
    }

    /// The interval that `..` becomes.
    pub open spec fn spec_from_range_full(range: RangeFull) -> Self {
        RangeInterval { reverse: false, start: Bound::Unbounded, end: Bound::Unbounded }
    }

    /// The interval that `..b` becomes.
    pub open spec fn spec_from_range_to(range: RangeTo<T>) -> Self {
        RangeInterval { reverse: false, start: Bound::Unbounded, end: Bound::Excluded(range.end) }
    }

    /// The interval that `..=b` becomes.
    pub open spec fn spec_from_range_to_inclusive(range: RangeToInclusive<T>) -> Self {
        RangeInterval { reverse: false, start: Bound::Unbounded, end: Bound::Included(range.end) }
    }
}

impl<T: PartialOrd> From<Range<T>> for RangeInterval<T> {
    /// `a..b`; written high-to-low it is the reversed interval that excludes
    /// `b` and includes `a`.
    fn from(range: Range<T>) -> (r: Self) {
        if range.start > range.end {
            RangeInterval {
                reverse: true,
                start: Bound::Excluded(range.end),
                end: Bound::Included(range.start),
            }
        } else {
            RangeInterval {
                reverse: false,
                start: Bound::Included(range.start),
                end: Bound::Excluded(range.end),
            }
        }
    }
}

impl<T: PartialOrd> FromSpecImpl<Range<T>> for RangeInterval<T> {
    open spec fn obeys_from_spec() -> bool {
        lawful::<T>()
    }

    open spec fn from_spec(range: Range<T>) -> Self {
        Self::spec_from_range(range)
    }
}

impl<T: PartialOrd> From<std::ops::RangeInclusive<T>> for RangeInterval<T> {
    /// `a..=b`; written high-to-low it is the reversed interval from `b` to
    /// `a`.
    fn from(range: std::ops::RangeInclusive<T>) -> (r: Self) {
        let (a, b) = range.into_inner();
        if a > b {
            RangeInterval { reverse: true, start: Bound::Included(b), end: Bound::Included(a) }
        } else {
            RangeInterval { reverse: false, start: Bound::Included(a), end: Bound::Included(b) }
        }
    }
}

impl<T: PartialOrd> FromSpecImpl<std::ops::RangeInclusive<T>> for RangeInterval<T> {
    open spec fn obeys_from_spec() -> bool {
        lawful::<T>()
    }

    open spec fn from_spec(range: std::ops::RangeInclusive<T>) -> Self {
        Self::spec_from_range_inclusive(range)
    }
}

impl<T> From<RangeFrom<T>> for RangeInterval<T> {
    /// `a..`
    fn from(range: RangeFrom<T>) -> (r: Self) {
        RangeInterval { reverse: false, start: Bound::Included(range.start), end: Bound::Unbounded }
    }
}

impl<T> FromSpecImpl<RangeFrom<T>> for RangeInterval<T> {
    open spec fn obeys_from_spec() -> bool {
        true
    }

    open spec fn from_spec(range: RangeFrom<T>) -> Self {
        Self::spec_from_range_from(range)
    }
}

impl<T> From<RangeFull> for RangeInterval<T> {
    /// `..`
    fn from(range: RangeFull) -> (r: Self) {
        RangeInterval { reverse: false, start: Bound::Unbounded, end: Bound::Unbounded }
    }
}

impl<T> FromSpecImpl<RangeFull> for RangeInterval<T> {
    open spec fn obeys_from_spec() -> bool {
        true
    }

    open spec fn from_spec(range: RangeFull) -> Self {
        Self::spec_from_range_full(range)
    }
}

impl<T> From<RangeTo<T>> for RangeInterval<T> {
    /// `..b`
    fn from(range: RangeTo<T>) -> (r: Self) {
        RangeInterval { reverse: false, start: Bound::Unbounded, end: Bound::Excluded(range.end) }
    }
}

impl<T> FromSpecImpl<RangeTo<T>> for RangeInterval<T> {
    open spec fn obeys_from_spec() -> bool {
        true
    }

    open spec fn from_spec(range: RangeTo<T>) -> Self {
        Self::spec_from_range_to(range)
    }
}

impl<T> From<RangeToInclusive<T>> for RangeInterval<T> {
    /// `..=b`
    fn from(range: RangeToInclusive<T>) -> (r: Self) {
        RangeInterval { reverse: false, start: Bound::Unbounded, end: Bound::Included(range.end) }
    }
}

impl<T> FromSpecImpl<RangeToInclusive<T>> for RangeInterval<T> {
    open spec fn obeys_from_spec() -> bool {
        true
    }

    open spec fn from_spec(range: RangeToInclusive<T>) -> Self {
        Self::spec_from_range_to_inclusive(range)
    }
}

/// An interval that converts to a std range has the shape of that range
/// type, and only a `Range` shape can fail to convert: that of a reversed
/// interval whose bounds are not those of a `Range` written high-to-low.
pub proof fn lemma_range_type_of_conversions<T: PartialOrd>(a: RangeInterval<T>)
    ensures
        a.spec_to_range() is Some ==> a.spec_range_type() == RangeType::Range,
        a.spec_to_range_inclusive() is Some <==> a.spec_range_type() == RangeType::RangeInclusive,
        a.spec_to_range_from() is Some <==> a.spec_range_type() == RangeType::RangeFrom,
        a.spec_to_range_full() is Some <==> a.spec_range_type() == RangeType::RangeFull,
        a.spec_to_range_to() is Some <==> a.spec_range_type() == RangeType::RangeTo,
        a.spec_to_range_to_inclusive() is Some <==> a.spec_range_type()
            == RangeType::RangeToInclusive,
{
}

/// A `Range` made into an interval comes back as the same `Range`, whichever
/// way round it was written.
pub proof fn lemma_range_round_trip<T: PartialOrd>(range: Range<T>)
    ensures
        RangeInterval::<T>::spec_from_range(range).spec_to_range() == Some(range),
        RangeInterval::<T>::spec_from_range(range).reverse == gt(range.start, range.end),
        is_total_order::<T>() ==> RangeInterval::<T>::spec_from_range(range).wf(),
{
    if is_total_order::<T>() {
        lemma_compare(range.start, range.end);
    }
}

/// A `RangeInclusive` made into an interval comes back with the same two
/// values in the same order.
pub proof fn lemma_range_inclusive_round_trip<T: PartialOrd>(range: std::ops::RangeInclusive<T>)
    ensures
        RangeInterval::<T>::spec_from_range_inclusive(range).spec_to_range_inclusive() == Some(
            (range@.start, range@.end),
        ),
        RangeInterval::<T>::spec_from_range_inclusive(range).reverse == gt(
            range@.start,
            range@.end,
        ),
        is_total_order::<T>() ==> RangeInterval::<T>::spec_from_range_inclusive(range).wf(),
{
    if is_total_order::<T>() {
        lemma_compare(range@.start, range@.end);
    }
}

/// A `RangeFrom`, `RangeTo`, `RangeToInclusive` or `RangeFull` made into an
/// interval comes back as the same range.
pub proof fn lemma_half_bounded_round_trip<T>(
    from: RangeFrom<T>,
    to: RangeTo<T>,
    to_inclusive: RangeToInclusive<T>,
    full: RangeFull,
)
    ensures
        RangeInterval::<T>::spec_from_range_from(from).spec_to_range_from() == Some(from),
        RangeInterval::<T>::spec_from_range_to(to).spec_to_range_to() == Some(to),
        RangeInterval::<T>::spec_from_range_to_inclusive(to_inclusive).spec_to_range_to_inclusive()
            == Some(to_inclusive),
        RangeInterval::<T>::spec_from_range_full(full).spec_to_range_full() == Some(full),
{
}

} // verus!

use range_ops::intersect::Intersection;
use range_ops::intersect::IntersectionExt;
use range_ops::successor::Successor;
use range_ops::BinaryResult;
use range_ops::DisplayExt;
use range_ops::RangeInterval;
use range_ops::RangeType;
use std::ops::Bound;

fn closed(a: i32, b: i32) -> RangeInterval<i32> {
    RangeInterval::new(Bound::Included(a), Bound::Included(b))
}

fn half_open(a: i32, b: i32) -> RangeInterval<i32> {
    RangeInterval::new(Bound::Included(a), Bound::Excluded(b))
}

#[test]
fn new_swaps_bounds_given_high_to_low() {
    let a = RangeInterval::new(Bound::Included(10), Bound::Included(1));
    assert!(a.reverse);
    assert_eq!(a.start, Bound::Included(1));
    assert_eq!(a.end, Bound::Included(10));
}

#[test]
fn new_keeps_the_kind_of_each_bound_when_it_swaps() {
    let a = RangeInterval::new(Bound::Excluded(10), Bound::Included(1));
    assert_eq!(
        a,
        RangeInterval { reverse: true, start: Bound::Included(1), end: Bound::Excluded(10) }
    );
    let b = RangeInterval::new(Bound::Included(10), Bound::Excluded(1));
    assert_eq!(
        b,
        RangeInterval { reverse: true, start: Bound::Excluded(1), end: Bound::Included(10) }
    );
}

#[test]
fn new_leaves_ordered_equal_and_unbounded_pairs() {
    assert_eq!(
        RangeInterval::new(Bound::Included(1), Bound::Excluded(10)),
        RangeInterval { reverse: false, start: Bound::Included(1), end: Bound::Excluded(10) }
    );
    assert_eq!(
        RangeInterval::new(Bound::Included(5), Bound::Included(5)),
        RangeInterval { reverse: false, start: Bound::Included(5), end: Bound::Included(5) }
    );
    assert_eq!(
        RangeInterval::new(Bound::Included(5), Bound::Unbounded),
        RangeInterval { reverse: false, start: Bound::Included(5), end: Bound::Unbounded }
    );
    assert_eq!(
        RangeInterval::<i32>::new(Bound::Unbounded, Bound::Excluded(-5)),
        RangeInterval { reverse: false, start: Bound::Unbounded, end: Bound::Excluded(-5) }
    );
}

#[test]
fn rev_point_is_a_reversed_single_value() {
    let p = RangeInterval::rev_point(7);
    assert_eq!(
        p,
        RangeInterval { reverse: true, start: Bound::Included(7), end: Bound::Included(7) }
    );
    assert!(p.contains(7));
    assert!(!p.contains(6));
    assert!(!p.is_empty());
}

#[test]
fn contains_at_the_bounds_of_a_half_open_interval() {
    let a = half_open(1, 10);
    assert!(a.contains(1));
    assert!(a.contains(9));
    assert!(!a.contains(10));
    assert!(!a.contains(0));
}

#[test]
fn emptiness_needs_an_excluded_bound() {
    assert!(half_open(1, 1).is_empty());
    let point = closed(1, 1);
    assert!(!point.is_empty());
    assert!(point.contains(1));
    assert!(!point.contains(0));
    assert!(!point.contains(2));
    let open_both = RangeInterval::new(Bound::Excluded(1), Bound::Excluded(2));
    assert!(!open_both.is_empty());
    assert!(!open_both.contains(1));
    assert!(!open_both.contains(2));
}

#[test]
fn contains_is_false_for_an_unordered_value() {
    let a = RangeInterval::new(Bound::Included(1.0), Bound::Included(10.0));
    assert!(!a.contains(f64::NAN));
    assert!(a.contains(10.0));
}

#[test]
fn range_type_of_every_shape() {
    assert_eq!(half_open(1, 2).range_type(), RangeType::Range);
    assert_eq!(half_open(2, 1).range_type(), RangeType::Range);
    assert_eq!(closed(1, 2).range_type(), RangeType::RangeInclusive);
    assert_eq!(closed(2, 1).range_type(), RangeType::RangeInclusive);
    assert_eq!(
        RangeInterval::new(Bound::Included(1), Bound::Unbounded).range_type(),
        RangeType::RangeFrom
    );
    assert_eq!(
        RangeInterval::<i32>::new(Bound::Unbounded, Bound::Unbounded).range_type(),
        RangeType::RangeFull
    );
    assert_eq!(
        RangeInterval::new(Bound::Unbounded, Bound::Excluded(1)).range_type(),
        RangeType::RangeTo
    );
    assert_eq!(
        RangeInterval::new(Bound::Unbounded, Bound::Included(1)).range_type(),
        RangeType::RangeToInclusive
    );
    assert_eq!(
        RangeInterval::new(Bound::Excluded(1), Bound::Included(2)).range_type(),
        RangeType::Other
    );
    assert_eq!(
        RangeInterval::new(Bound::Excluded(1), Bound::Excluded(2)).range_type(),
        RangeType::Other
    );
    assert_eq!(
        RangeInterval::new(Bound::Excluded(1), Bound::Unbounded).range_type(),
        RangeType::Other
    );
    assert_eq!(
        RangeInterval::new(Bound::Excluded(2), Bound::Excluded(1)).range_type(),
        RangeType::Other
    );
}

#[test]
fn every_std_range_comes_back() {
    assert_eq!(RangeInterval::from(1..10).to_range(), Some(1..10));
    assert_eq!(RangeInterval::from(10..1).to_range(), Some(10..1));
    assert_eq!(RangeInterval::from(3..3).to_range(), Some(3..3));
    assert_eq!(RangeInterval::from(1..=10).to_range_inclusive(), Some(1..=10));
    assert_eq!(RangeInterval::from(10..=1).to_range_inclusive(), Some(10..=1));
    assert_eq!(RangeInterval::from(1..).to_range_from(), Some(1..));
    assert_eq!(RangeInterval::from(..10).to_range_to(), Some(..10));
    assert_eq!(RangeInterval::from(..=10).to_range_to_inclusive(), Some(..=10));
    assert_eq!(RangeInterval::<i32>::from(..).to_range_full(), Some(..));
    assert_eq!(RangeInterval::from(1..10).try_to_range(), Ok(1..10));
    assert_eq!(RangeInterval::from(10..=1).try_to_range_inclusive(), Ok(10..=1));
    assert_eq!(RangeInterval::from(1..).try_to_range_from(), Ok(1..));
    assert_eq!(RangeInterval::from(..10).try_to_range_to(), Ok(..10));
    assert_eq!(RangeInterval::from(..=10).try_to_range_to_inclusive(), Ok(..=10));
    assert_eq!(RangeInterval::<i32>::from(..).try_to_range_full(), Ok(..));
}

#[test]
fn a_reversed_range_is_stored_low_to_high() {
    let a = RangeInterval::from(10..1);
    assert_eq!(
        a,
        RangeInterval { reverse: true, start: Bound::Excluded(1), end: Bound::Included(10) }
    );
    let b = RangeInterval::from(10..=1);
    assert_eq!(
        b,
        RangeInterval { reverse: true, start: Bound::Included(1), end: Bound::Included(10) }
    );
}

#[test]
fn a_failed_conversion_hands_the_interval_back() {
    let reversed = RangeInterval::from(10..1);
    assert_eq!(reversed.try_to_range_inclusive(), Err(reversed));
    assert_eq!(reversed.try_to_range_from(), Err(reversed));
    assert_eq!(reversed.try_to_range_full(), Err(reversed));
    assert_eq!(reversed.try_to_range_to(), Err(reversed));
    assert_eq!(reversed.try_to_range_to_inclusive(), Err(reversed));
    let inclusive = closed(1, 10);
    assert_eq!(inclusive.try_to_range(), Err(inclusive));
    let open_start = RangeInterval::new(Bound::Excluded(1), Bound::Excluded(10));
    assert_eq!(open_start.try_to_range(), Err(open_start));
    assert_eq!(open_start.to_range(), None);
    assert_eq!(open_start.to_range_inclusive(), None);
    assert_eq!(open_start.to_range_from(), None);
    assert_eq!(open_start.to_range_full(), None);
    assert_eq!(open_start.to_range_to(), None);
    assert_eq!(open_start.to_range_to_inclusive(), None);
    let backwards = RangeInterval { reverse: true, start: Bound::Included(1), end: Bound::Excluded(10) };
    assert_eq!(backwards.try_to_range(), Err(backwards));
}

#[test]
fn classify_at_touching_bounds() {
    assert_eq!(closed(1, 5).classify(&closed(5, 9)), IntersectionExt::LessOverlap);
    assert_eq!(half_open(1, 5).classify(&closed(5, 9)), IntersectionExt::Less);
    let after_five = RangeInterval::new(Bound::Excluded(5), Bound::Included(9));
    assert_eq!(closed(1, 5).classify(&after_five), IntersectionExt::Less);
    assert_eq!(after_five.classify(&closed(1, 5)), IntersectionExt::Greater);
    assert_eq!(closed(5, 9).classify(&closed(1, 5)), IntersectionExt::GreaterOverlap);
    assert_eq!(closed(1, 10).classify(&closed(1, 1)), IntersectionExt::Over);
    assert_eq!(closed(1, 1).classify(&closed(1, 10)), IntersectionExt::Within);
    assert_eq!(half_open(1, 10).classify(&closed(1, 10)), IntersectionExt::Within);
    assert_eq!(closed(1, 10).classify(&half_open(1, 10)), IntersectionExt::Over);
    assert_eq!(closed(1, 10).classify(&closed(1, 10)), IntersectionExt::Same);
    assert_eq!(closed(1, 10).classify(&half_open(3, 3)), IntersectionExt::Empty);
    assert_eq!(half_open(3, 3).classify(&closed(1, 10)), IntersectionExt::Empty);
}

#[test]
fn classify_with_unbounded_sides() {
    let all = RangeInterval::<i32>::new(Bound::Unbounded, Bound::Unbounded);
    let from_five = RangeInterval::new(Bound::Included(5), Bound::Unbounded);
    let to_five = RangeInterval::new(Bound::Unbounded, Bound::Excluded(5));
    assert_eq!(all.classify(&all), IntersectionExt::Same);
    assert_eq!(closed(1, 2).classify(&all), IntersectionExt::Within);
    assert_eq!(all.classify(&closed(1, 2)), IntersectionExt::Over);
    assert_eq!(to_five.classify(&from_five), IntersectionExt::Less);
    assert_eq!(from_five.classify(&to_five), IntersectionExt::Greater);
    assert_eq!(from_five.classify(&closed(1, 5)), IntersectionExt::GreaterOverlap);
    assert_eq!(closed(1, 5).classify(&from_five), IntersectionExt::LessOverlap);
    assert_eq!(from_five.classify(&all), IntersectionExt::Within);
}

#[test]
fn a_reversed_interval_is_classified_as_it_is_stored() {
    let a = RangeInterval::new(Bound::Included(10), Bound::Included(1));
    assert_eq!(a.classify(&closed(8, 15)), IntersectionExt::LessOverlap);
    assert_eq!(closed(1, 10).classify(&closed(8, 15)), IntersectionExt::LessOverlap);
}

#[test]
fn coarse_relation_of_intervals() {
    assert_eq!(closed(1, 5).intersection(&closed(5, 9)), Intersection::Overlap);
    assert_eq!(half_open(1, 5).intersection(&closed(5, 9)), Intersection::Empty);
    assert_eq!(closed(1, 9).intersection(&closed(5, 9)), Intersection::Full);
    assert!(closed(1, 5).does_intersect(&closed(5, 9)));
    assert!(!half_open(1, 5).does_intersect(&closed(5, 9)));
    assert!(!closed(1, 5).does_intersect(&half_open(2, 2)));
}

#[test]
fn subtract_scenarios() {
    assert_eq!(half_open(5, 10).subtract(half_open(0, 5)), BinaryResult::One(half_open(5, 10)));
    assert_eq!(half_open(1, 10).subtract(half_open(5, 10)), BinaryResult::One(half_open(1, 5)));
    assert_eq!(
        closed(1, 10).subtract(closed(5, 5)),
        BinaryResult::Two(
            half_open(1, 5),
            RangeInterval::new(Bound::Excluded(5), Bound::Included(10))
        )
    );
    assert_eq!(closed(1, 10).subtract(closed(0, 20)), BinaryResult::Empty);
}

#[test]
fn subtract_leaves_out_empty_pieces() {
    assert_eq!(closed(5, 5).subtract(closed(3, 5)), BinaryResult::Empty);
    assert_eq!(closed(5, 5).subtract(closed(5, 8)), BinaryResult::Empty);
    assert_eq!(closed(1, 10).subtract(closed(1, 10)), BinaryResult::Empty);
    assert_eq!(
        closed(1, 10).subtract(half_open(1, 10)),
        BinaryResult::One(closed(10, 10))
    );
    assert_eq!(
        closed(1, 10).subtract(RangeInterval::new(Bound::Excluded(1), Bound::Included(10))),
        BinaryResult::One(closed(1, 1))
    );
}

#[test]
fn subtract_of_an_empty_interval_changes_nothing() {
    let empties = [
        half_open(3, 3),
        RangeInterval::new(Bound::Excluded(3), Bound::Included(3)),
        RangeInterval::new(Bound::Excluded(3), Bound::Excluded(3)),
    ];
    for e in empties {
        assert_eq!(closed(1, 10).subtract(e), BinaryResult::One(closed(1, 10)));
        assert_eq!(e.subtract(e), BinaryResult::One(e));
    }
}

#[test]
fn subtract_keeps_the_reverse_flag() {
    let a = RangeInterval::new(Bound::Included(10), Bound::Included(1));
    assert_eq!(
        a.subtract(closed(4, 6)),
        BinaryResult::Two(
            RangeInterval { reverse: true, start: Bound::Included(1), end: Bound::Excluded(4) },
            RangeInterval { reverse: true, start: Bound::Excluded(6), end: Bound::Included(10) },
        )
    );
    assert_eq!(a - closed(20, 30), BinaryResult::One(a));
}

#[test]
fn avoid_steps_past_an_included_bound() {
    let a = closed(1, 10);
    assert_eq!(a.avoid(5, true), Some(11));
    assert_eq!(a.avoid(5, false), Some(0));
    assert_eq!(a.avoid(10, true), Some(11));
    assert_eq!(a.avoid(11, true), Some(11));
    assert_eq!(a.avoid(0, false), Some(0));
}

#[test]
fn avoid_finds_nothing_past_the_last_value() {
    let top = RangeInterval::new(Bound::Included(1), Bound::Included(i32::MAX));
    assert_eq!(top.avoid(5, true), None);
    assert_eq!(top.avoid(5, false), Some(0));
    let bottom = RangeInterval::new(Bound::Included(0u8), Bound::Excluded(10u8));
    assert_eq!(bottom.avoid(5, false), None);
    assert_eq!(bottom.avoid(5, true), Some(10));
}

#[test]
fn avoid_with_takes_the_step_it_is_given() {
    let a = closed(10, 20);
    let by_five = |v: &i32, up: bool| if up { v.checked_add(5) } else { v.checked_sub(5) };
    assert_eq!(a.avoid_with(15, true, by_five), Some(25));
    assert_eq!(a.avoid_with(15, false, by_five), Some(5));
    assert_eq!(a.avoid_with(30, false, by_five), Some(30));
    assert_eq!(a.avoid_with(15, true, |_: &i32, _: bool| None), None);
    let open = RangeInterval::new(Bound::Excluded(10), Bound::Excluded(20));
    assert_eq!(open.avoid_with(15, true, by_five), Some(20));
    assert_eq!(open.avoid_with(15, false, by_five), Some(10));
    assert_eq!(open.avoid_with(10, false, by_five), Some(10));
}

#[test]
fn successor_at_the_limits() {
    assert_eq!(Successor::next(&5i32), Some(6));
    assert_eq!(Successor::prev(&5i32), Some(4));
    assert_eq!(Successor::next(&i8::MAX), None);
    assert_eq!(Successor::prev(&i8::MIN), None);
    assert_eq!(Successor::next(&u8::MAX), None);
    assert_eq!(Successor::prev(&0u8), None);
    assert_eq!(Successor::next(&i16::MAX), None);
    assert_eq!(Successor::prev(&i16::MIN), None);
    assert_eq!(Successor::next(&u16::MAX), None);
    assert_eq!(Successor::prev(&0u16), None);
    assert_eq!(Successor::next(&i32::MAX), None);
    assert_eq!(Successor::prev(&i32::MIN), None);
    assert_eq!(Successor::next(&u32::MAX), None);
    assert_eq!(Successor::prev(&0u32), None);
    assert_eq!(Successor::next(&i64::MAX), None);
    assert_eq!(Successor::prev(&i64::MIN), None);
    assert_eq!(Successor::next(&u64::MAX), None);
    assert_eq!(Successor::prev(&0u64), None);
    assert_eq!(Successor::next(&isize::MAX), None);
    assert_eq!(Successor::prev(&isize::MIN), None);
    assert_eq!(Successor::next(&usize::MAX), None);
    assert_eq!(Successor::prev(&0usize), None);
    assert_eq!(Successor::next(&(u64::MAX - 1)), Some(u64::MAX));
    assert_eq!(Successor::prev(&(i64::MIN + 1)), Some(i64::MIN));
}

#[test]
fn into_converts_each_value() {
    let a: RangeInterval<i64> = RangeInterval::new(Bound::Excluded(10i32), Bound::Included(1i32)).into();
    assert_eq!(
        a,
        RangeInterval { reverse: true, start: Bound::Included(1i64), end: Bound::Excluded(10i64) }
    );
    let b: RangeInterval<i64> = RangeInterval::new(Bound::Unbounded, Bound::Excluded(7i32)).into();
    assert_eq!(b, RangeInterval::new(Bound::Unbounded, Bound::Excluded(7i64)));
}

#[test]
fn map_does_not_put_the_bounds_in_order_again() {
    let a = closed(1, 10).map(|v| -*v);
    assert_eq!(
        a,
        RangeInterval { reverse: false, start: Bound::Included(-1), end: Bound::Included(-10) }
    );
    let b = RangeInterval::from(10..1).map(|v| *v * 2);
    assert_eq!(
        b,
        RangeInterval { reverse: true, start: Bound::Excluded(2), end: Bound::Included(20) }
    );
}

#[derive(Clone, Copy, Debug, PartialEq)]
struct Num(i32);

impl DisplayExt for Num {
    fn fmt(&self) -> String {
        format!("{}", self.0)
    }
}

impl From<i32> for Num {
    fn from(v: i32) -> Num {
        Num(v)
    }
}

#[test]
fn text_of_intervals() {
    assert_eq!(closed(1, 10).display::<Num>().to_string(), "<1..10>");
    assert_eq!(half_open(1, 10).display::<Num>().to_string(), "<1..10)");
    assert_eq!(
        RangeInterval::new(Bound::Excluded(1), Bound::Unbounded).display::<Num>().to_string(),
        "(1.."
    );
    assert_eq!(
        RangeInterval::new(Bound::Unbounded, Bound::Included(-3)).display::<Num>().to_string(),
        "..-3>"
    );
    assert_eq!(
        RangeInterval::<i32>::new(Bound::Unbounded, Bound::Unbounded).display::<Num>().to_string(),
        ".."
    );
}

#[test]
fn text_of_a_reversed_interval_starts_with_its_end() {
    assert_eq!(RangeInterval::from(10..1).display::<Num>().to_string(), "<10..1)");
    assert_eq!(RangeInterval::from(10..=1).display::<Num>().to_string(), "<10..1>");
    assert_eq!(
        RangeInterval::new(Bound::Excluded(10), Bound::Excluded(1)).display::<Num>().to_string(),
        "(10..1)"
    );
}

#[test]
fn display_keeps_bounds_and_flag() {
    let a = RangeInterval::from(10..1).display::<Num>();
    assert_eq!(
        a,
        RangeInterval { reverse: true, start: Bound::Excluded(Num(1)), end: Bound::Included(Num(10)) }
    );
}

#[test]
fn unordered_bounds_give_the_empty_result() {
    let a = RangeInterval::new(Bound::Included(1.0), Bound::Included(10.0));
    let n = RangeInterval::new(Bound::Included(f64::NAN), Bound::Included(5.0));
    assert_eq!(a.classify(&n), IntersectionExt::Empty);
    assert_eq!(n.classify(&a), IntersectionExt::Empty);
    assert_eq!(a.intersection(&n), Intersection::Empty);
    assert!(!a.does_intersect(&n));
    assert_eq!(a.subtract(n), BinaryResult::Empty);
    assert_eq!(n.subtract(a), BinaryResult::Empty);
    let all = RangeInterval::new(Bound::Unbounded, Bound::Unbounded);
    assert_eq!(n.classify(&all), IntersectionExt::Within);
}

#[test]
fn clone_gives_the_same_interval() {
    let a = RangeInterval::new(Bound::Excluded(String::from("b")), Bound::Included(String::from("a")));
    let b = a.clone();
    assert_eq!(a, b);
    assert!(b.reverse);
    assert_eq!(b.start, Bound::Included(String::from("a")));
}

#[test]
fn intervals_of_strings() {
    let a = RangeInterval::new(Bound::Included("b"), Bound::Excluded("d"));
    assert!(a.contains("b"));
    assert!(a.contains("c"));
    assert!(!a.contains("d"));
    let b = RangeInterval::new(Bound::Included("c"), Bound::Included("c"));
    assert_eq!(
        a.subtract(b),
        BinaryResult::Two(
            RangeInterval::new(Bound::Included("b"), Bound::Excluded("c")),
            RangeInterval::new(Bound::Excluded("c"), Bound::Excluded("d")),
        )
    );
}

use range_ops::intersect::Intersect;
use range_ops::intersect::Intersection;
use range_ops::intersect::IntersectionExt;

#[test]
fn range_intersect() {
    // Overlapping cases
    assert_eq!((5..10).intersect_ext(&(3..7)), IntersectionExt::GreaterOverlap);
    assert_eq!((5..10).intersect_ext(&(8..15)), IntersectionExt::LessOverlap);
    assert_eq!((10..5).intersect_ext(&(3..7)), IntersectionExt::GreaterOverlap);
    assert_eq!((10..5).intersect_ext(&(8..15)), IntersectionExt::LessOverlap);
    assert_eq!((10..5).intersect_ext(&(7..3)), IntersectionExt::GreaterOverlap);
    assert_eq!((10..5).intersect_ext(&(15..8)), IntersectionExt::LessOverlap);

    // Complete overlap/within
    assert_eq!((5..10).intersect_ext(&(5..10)), IntersectionExt::Same);
    assert_eq!((5..10).intersect_ext(&(4..11)), IntersectionExt::Within);
    assert_eq!((5..10).intersect_ext(&(5..20)), IntersectionExt::Within);

    // Containing
    assert_eq!((5..10).intersect_ext(&(6..9)), IntersectionExt::Over);
    assert_eq!((5..10).intersect_ext(&(5..6)), IntersectionExt::Over);
    assert_eq!((5..10).intersect_ext(&(6..10)), IntersectionExt::Over);

    // Completely below or above
    assert_eq!((5..10).intersect_ext(&(10..15)), IntersectionExt::Less);
    assert_eq!((5..10).intersect_ext(&(0..5)), IntersectionExt::Greater);

    // Intersecting with empty ranges
    assert_eq!((5..10).intersect_ext(&(5..5)), IntersectionExt::Empty);
    assert_eq!((5..5).intersect_ext(&(3..7)), IntersectionExt::Empty);
    assert_eq!((5..5).intersect_ext(&(6..6)), IntersectionExt::Empty);


    assert_eq!((5..10).intersect(&(0..5)), Intersection::Empty);
    assert_eq!((5..10).intersect(&(11..20)), Intersection::Empty);
    assert_eq!((5..5).intersect(&(11..20)), Intersection::Empty);
    assert_eq!((5..10).intersect(&(5..5)), Intersection::Empty);
    assert_eq!((5..10).intersect(&(5..10)), Intersection::Full);
    assert_eq!((5..10).intersect(&(4..10)), Intersection::Full);
    assert_eq!((5..10).intersect(&(4..12)), Intersection::Full);
    assert_eq!((5..10).intersect(&(5..12)), Intersection::Full);
    assert_eq!((5..10).intersect(&(6..12)), Intersection::Overlap);
    assert_eq!((5..10).intersect(&(4..8)), Intersection::Overlap);
    assert_eq!((5..10).intersect(&(5..11)), Intersection::Full);


    assert_eq!((5..10).does_intersect(&(5..10)), true);
    assert_eq!((5..10).does_intersect(&(5..10)), true);
    assert_eq!((5..5).does_intersect(&(5..10)), false);

    assert_eq!((5..10).does_intersect(&(5..5)), false);
    assert_eq!((5..10).does_intersect(&(5..10)), true);
    assert_eq!((5..10).does_intersect(&(4..10)), true);
    assert_eq!((5..10).does_intersect(&(4..12)), true);
    assert_eq!((5..10).does_intersect(&(5..12)), true);
    assert_eq!((5..10).does_intersect(&(6..12)), true);
    assert_eq!((5..10).does_intersect(&(4..8)), true);
    assert_eq!((5..10).does_intersect(&(5..11)), true);
}

#[test]
fn range_from_intersect() {
    assert_eq!((1..10).intersect_ext(&(5..)), IntersectionExt::LessOverlap);
    assert_eq!((1..10).intersect_ext(&(11..)), IntersectionExt::Less);
    assert_eq!((1..10).intersect_ext(&(1..)), IntersectionExt::Within);
    assert_eq!((1..10).intersect_ext(&(0..)), IntersectionExt::Within);
    assert_eq!((1..10).intersect_ext(&(10..)), IntersectionExt::Less);

    // reverse
    assert_eq!((10..1).intersect_ext(&(5..)), IntersectionExt::LessOverlap);
    assert_eq!((10..1).intersect_ext(&(11..)), IntersectionExt::Less);
    assert_eq!((10..1).intersect_ext(&(1..)), IntersectionExt::Within);
    assert_eq!((10..1).intersect_ext(&(0..)), IntersectionExt::Within);

    assert_eq!((1..1).intersect_ext(&(0..)), IntersectionExt::Empty);


    assert_eq!((1..10).intersect(&(10..)), Intersection::Empty);
    assert_eq!((1..10).intersect(&(5..)), Intersection::Overlap);
    assert_eq!((1..10).intersect(&(11..)), Intersection::Empty);
    assert_eq!((1..10).intersect(&(1..)), Intersection::Full);
    assert_eq!((1..10).intersect(&(0..)), Intersection::Full);
    assert_eq!((1..1).intersect(&(0..)), Intersection::Empty);
    assert_eq!((10..1).intersect(&(5..)), Intersection::Overlap);
    assert_eq!((10..1).intersect(&(11..)), Intersection::Empty);
    assert_eq!((10..1).intersect(&(1..)), Intersection::Full);
    assert_eq!((10..1).intersect(&(0..)), Intersection::Full);


    assert_eq!((1..10).does_intersect(&(10..)), false);
    assert_eq!((1..10).does_intersect(&(5..)), true);
    assert_eq!((1..10).does_intersect(&(11..)), false);
    assert_eq!((1..10).does_intersect(&(1..)), true);
    assert_eq!((1..10).does_intersect(&(0..)), true);
    assert_eq!((1..1) .does_intersect(&(0..)), false);
    assert_eq!((10..1).does_intersect(&(5..)), true);
    assert_eq!((10..1).does_intersect(&(11..)), false);
    assert_eq!((10..1).does_intersect(&(1..)), true);
    assert_eq!((10..1).does_intersect(&(0..)), true);
}

#[test]
fn range_full_intersect() {
    assert_eq!((1..10).intersect_ext(&..), IntersectionExt::Within);
    assert_eq!((1..1).intersect_ext(&..), IntersectionExt::Empty);

    assert_eq!((1..10).intersect(&..), Intersection::Full);
    assert_eq!((1..1).intersect(&..), Intersection::Empty);

    assert_eq!((1..10).does_intersect(&..), true);
    assert_eq!((1..1).does_intersect(&..), false);
}

#[test]
fn range_to_intersect() {
    assert_eq!((1..1).intersect_ext(&(..0)), IntersectionExt::Empty);
    assert_eq!((1..10).intersect_ext(&(..0)), IntersectionExt::Greater);
    assert_eq!((1..10).intersect_ext(&(..1)), IntersectionExt::Greater);
    assert_eq!((1..10).intersect_ext(&(..2)), IntersectionExt::GreaterOverlap);
    assert_eq!((1..10).intersect_ext(&(..10)), IntersectionExt::Within);
    assert_eq!((1..10).intersect_ext(&(..11)), IntersectionExt::Within);

    assert_eq!((10..1).intersect_ext(&(..0)), IntersectionExt::Greater);
    assert_eq!((10..1).intersect_ext(&(..1)), IntersectionExt::Greater);
    assert_eq!((10..1).intersect_ext(&(..2)), IntersectionExt::GreaterOverlap);
    assert_eq!((10..1).intersect_ext(&(..10)), IntersectionExt::Within);
    assert_eq!((10..1).intersect_ext(&(..11)), IntersectionExt::Within);

    assert_eq!((1..1). intersect(&(..0)), Intersection::Empty);
    assert_eq!((1..10).intersect(&(..0)), Intersection::Empty);
    assert_eq!((1..10).intersect(&(..1)), Intersection::Empty);
    assert_eq!((1..10).intersect(&(..2)), Intersection::Overlap);
    assert_eq!((1..10).intersect(&(..10)), Intersection::Full);
    assert_eq!((1..10).intersect(&(..11)), Intersection::Full);

    assert_eq!((10..1).intersect(&(..0)), Intersection::Empty);
    assert_eq!((10..1).intersect(&(..1)), Intersection::Empty);
    assert_eq!((10..1).intersect(&(..2)), Intersection::Overlap);
    assert_eq!((10..1).intersect(&(..10)), Intersection::Full);
    assert_eq!((10..1).intersect(&(..11)), Intersection::Full);
}

#[test]
fn functions_test() {
    assert_eq!(Intersection::Overlap.is_any(), true);
    assert_eq!(Intersection::Empty.is_any(), false);
    assert_eq!(IntersectionExt::Less.is_any(), false);
    assert_eq!(IntersectionExt::LessOverlap.is_any(), true);
    assert_eq!(IntersectionExt::Within.is_any(), true);
    assert_eq!(IntersectionExt::Same.is_any(), true);
    assert_eq!(IntersectionExt::Over.is_any(), true);
    assert_eq!(IntersectionExt::GreaterOverlap.is_any(), true);
    assert_eq!(IntersectionExt::Greater.is_any(), false);
    assert_eq!(IntersectionExt::Less.is_within(), false);
    assert_eq!(IntersectionExt::LessOverlap.is_within(), false);
    assert_eq!(IntersectionExt::Within.is_within(), true);
    assert_eq!(IntersectionExt::Same.is_within(), true);
    assert_eq!(IntersectionExt::Over.is_within(), false);
    assert_eq!(IntersectionExt::GreaterOverlap.is_within(), false);
    assert_eq!(IntersectionExt::Greater.is_within(), false);
}

#[test]
fn range_inclusive_test() {
    assert_eq!((10..=1).intersect_ext(&(15..=1)), IntersectionExt::Within);
    assert_eq!((10..=1).intersect_ext(&(10..=1)), IntersectionExt::Same);
    assert_eq!((10..=1).intersect_ext(&(9..=1)), IntersectionExt::Over);
    assert_eq!((10..=1).intersect_ext(&(10..=9)), IntersectionExt::Over);
    assert_eq!((10..=1).intersect_ext(&(10..=0)), IntersectionExt::Within);
    assert_eq!((10..=1).intersect_ext(&(1..=0)), IntersectionExt::GreaterOverlap);
    assert_eq!((10..=1).intersect_ext(&(0..=-1)), IntersectionExt::Greater);
    assert_eq!((10..=1).intersect_ext(&(11..=10)), IntersectionExt::LessOverlap);
    assert_eq!((10..=1).intersect_ext(&(12..=11)), IntersectionExt::Less);

    assert_eq!((10..=1).intersect(&(15..=1)), Intersection::Full);
    assert_eq!((10..=1).intersect(&(10..=1)), Intersection::Full);
    assert_eq!((10..=1).intersect(&(9..=1)), Intersection::Full);
    assert_eq!((10..=1).intersect(&(10..=9)), Intersection::Full);
    assert_eq!((10..=1).intersect(&(10..=0)), Intersection::Full);
    assert_eq!((10..=1).intersect(&(1..=0)), Intersection::Overlap);
    assert_eq!((10..=1).intersect(&(0..=-1)), Intersection::Empty);
    assert_eq!((10..=1).intersect(&(11..=10)), Intersection::Overlap);
    assert_eq!((10..=1).intersect(&(12..=11)), Intersection::Empty);

    assert_eq!((10..=1).does_intersect(&(15..=1)), true);
    assert_eq!((10..=1).does_intersect(&(10..=1)), true);
    assert_eq!((10..=1).does_intersect(&(9..=1)), true);
    assert_eq!((10..=1).does_intersect(&(10..=9)), true);
    assert_eq!((10..=1).does_intersect(&(10..=0)), true);
    assert_eq!((10..=1).does_intersect(&(1..=0)), true);
    assert_eq!((10..=1).does_intersect(&(0..=-1)), false);
    assert_eq!((10..=1).does_intersect(&(11..=10)), true);
    assert_eq!((10..=1).does_intersect(&(12..=11)), false);
}

//! How two intervals lie to each other.
use vstd::prelude::*;

pub use crate::range_intersect::Intersect;
pub use crate::range_intersect::do_intersect_ext;

verus! {

/// The coarse relation of two intervals.
#[derive(Debug, PartialEq)]
pub enum Intersection {
    /// The two intervals share nothing.
    Empty,
    /// The two intervals overlap and neither holds the other.
    Overlap,
    /// One interval holds the other; they may be the same.
    Full,
}

impl Intersection {
    /// Something is shared.
    pub open spec fn spec_is_any(self) -> bool {
        !(self is Empty)
    }

    /// Tells whether the intervals share anything.
    pub fn is_any(&self) -> (r: bool)
        ensures
            r == self.spec_is_any(),
    {
        match self {
            Intersection::Empty => false,
            _ => true,
        }
    }
}

/// The relation of a first interval to a second, seen from the first.
#[derive(Debug, PartialEq)]
pub enum IntersectionExt {
    /// One of the intervals, or both, are empty.
    Empty,
    /// The first ends before the second starts.
    Less,
    /// The first starts before the second and ends inside it.
    LessOverlap,
    /// The first lies in the second.
    Within,
    /// The two are the same.
    Same,
    /// The first holds the second.
    Over,
    /// The first starts inside the second and ends after it.
    GreaterOverlap,
    /// The first starts after the second ends.
    Greater,
}

impl IntersectionExt {
    /// The coarse relation that this one falls under.
    pub open spec fn spec_intersection(self) -> Intersection {
        match self {
            IntersectionExt::Empty | IntersectionExt::Less | IntersectionExt::Greater =>
                Intersection::Empty,
            IntersectionExt::LessOverlap | IntersectionExt::GreaterOverlap => Intersection::Overlap,
            IntersectionExt::Within | IntersectionExt::Same | IntersectionExt::Over =>
                Intersection::Full,
        }
    }

    /// Something is shared.
    pub open spec fn spec_is_any(self) -> bool {
        !(self is Empty || self is Less || self is Greater)
    }

    /// The first interval lies in the second, or is the same.
    pub open spec fn spec_is_within(self) -> bool {
        self is Within || self is Same
    }

    /// The relation as the second interval sees it.
    pub open spec fn mirror(self) -> IntersectionExt {
        match self {
            IntersectionExt::Empty => IntersectionExt::Empty,
            IntersectionExt::Less => IntersectionExt::Greater,
            IntersectionExt::LessOverlap => IntersectionExt::GreaterOverlap,
            IntersectionExt::Within => IntersectionExt::Over,
            IntersectionExt::Same => IntersectionExt::Same,
            IntersectionExt::Over => IntersectionExt::Within,
            IntersectionExt::GreaterOverlap => IntersectionExt::LessOverlap,
            IntersectionExt::Greater => IntersectionExt::Less,
        }
    }

    /// The coarse relation: disjoint, overlapping, or one holding the other.
    pub fn intersection(&self) -> (r: Intersection)
        ensures
            r == self.spec_intersection(),
    {
        match self {
            IntersectionExt::Empty => Intersection::Empty,
            IntersectionExt::Less => Intersection::Empty,
            IntersectionExt::LessOverlap => Intersection::Overlap,
            IntersectionExt::Within => Intersection::Full,
            IntersectionExt::Same => Intersection::Full,
            IntersectionExt::Over => Intersection::Full,
            IntersectionExt::GreaterOverlap => Intersection::Overlap,
            IntersectionExt::Greater => Intersection::Empty,
        }
    }

    /// Tells whether the intervals share anything.
    pub fn is_any(&self) -> (r: bool)
        ensures
            r == self.spec_is_any(),
    {
        match self {
            IntersectionExt::Empty | IntersectionExt::Less | IntersectionExt::Greater => false,
            _ => true,
        }
    }

    /// Tells whether the first interval lies within the second; the same
    /// interval does.
    pub fn is_within(&self) -> (r: bool)
        ensures
            r == self.spec_is_within(),
    {
        match self {
            IntersectionExt::Within | IntersectionExt::Same => true,
            _ => false,
        }
    }
}

} // verus!

//! Algebra of one-dimensional intervals over an ordered value type.
//!
//! [`RangeInterval`] unifies every shape of interval (bounded, half-bounded,
//! unbounded, open or closed at either end, empty, written high-to-low) in one
//! representation. On it the crate defines containment, the seven-way relation
//! of two intervals, and subtraction, whose result is zero, one or two
//! intervals. The std range types get the older `Intersect` and `Split`
//! operations.
//!
//! Contracts speak of the value type's order through [`order`]: exact results
//! are promised wherever the comparison operators of `T` follow their
//! specification, and the algebraic laws wherever that order is total.
use vstd::prelude::*;

pub mod order;
pub mod std_ranges;
pub mod range_interval;
pub mod edges;
pub mod convert;
pub mod transform;
pub mod display;
pub mod binary_result;
pub mod intersect;
pub mod classify;
pub mod range_intersect;
pub mod subtraction;
pub mod split;
pub mod successor;
pub mod avoid;

pub use binary_result::BinaryResult;
pub use display::DisplayExt;
pub use range_interval::RangeInterval;
pub use range_interval::RangeType;

//! Stepping from a value to the next one and to the one before.
use vstd::prelude::*;

verus! {

/// A type of discrete values, each with at most one value next to it on
/// either side.
pub trait Successor: Sized {
    /// The next value from this value; `None` where this is the last.
    fn next(&self) -> Option<Self>;

    /// The previous value from this value; `None` where this is the first.
    fn prev(&self) -> Option<Self>;
}

/// `to` is what one step from `from` may give, towards the higher values or
/// towards the lower ones.
pub open spec fn is_step<T: Successor>(from: T, towards_end: bool, to: Option<T>) -> bool {
    if towards_end {
        call_ensures(T::next, (&from,), to)
    } else {
        call_ensures(T::prev, (&from,), to)
    }
}

impl Successor for i8 {
    fn next(&self) -> (r: Option<i8>)
        ensures
            *self < i8::MAX ==> r == Some((*self + 1) as i8),
            *self == i8::MAX ==> r is None,
    {
        self.checked_add(1)
    }

    fn prev(&self) -> (r: Option<i8>)
        ensures
            *self > i8::MIN ==> r == Some((*self - 1) as i8),
            *self == i8::MIN ==> r is None,
    {
        self.checked_sub(1)
    }
}

impl Successor for i16 {
    fn next(&self) -> (r: Option<i16>)
        ensures
            *self < i16::MAX ==> r == Some((*self + 1) as i16),
            *self == i16::MAX ==> r is None,
    {
        self.checked_add(1)
    }

    fn prev(&self) -> (r: Option<i16>)
        ensures
            *self > i16::MIN ==> r == Some((*self - 1) as i16),
            *self == i16::MIN ==> r is None,
    {
        self.checked_sub(1)
    }
}

impl Successor for i32 {
    fn next(&self) -> (r: Option<i32>)
        ensures
            *self < i32::MAX ==> r == Some((*self + 1) as i32),
            *self == i32::MAX ==> r is None,
    {
        self.checked_add(1)
    }

    fn prev(&self) -> (r: Option<i32>)
        ensures
            *self > i32::MIN ==> r == Some((*self - 1) as i32),
            *self == i32::MIN ==> r is None,
    {
        self.checked_sub(1)
    }
}

impl Successor for i64 {
    fn next(&self) -> (r: Option<i64>)
        ensures
            *self < i64::MAX ==> r == Some((*self + 1) as i64),
            *self == i64::MAX ==> r is None,
    {
        self.checked_add(1)
    }

    fn prev(&self) -> (r: Option<i64>)
        ensures
            *self > i64::MIN ==> r == Some((*self - 1) as i64),
            *self == i64::MIN ==> r is None,
    {
        self.checked_sub(1)
    }
}

impl Successor for isize {
    fn next(&self) -> (r: Option<isize>)
        ensures
            *self < isize::MAX ==> r == Some((*self + 1) as isize),
            *self == isize::MAX ==> r is None,
    {
        self.checked_add(1)
    }

    fn prev(&self) -> (r: Option<isize>)
        ensures
            *self > isize::MIN ==> r == Some((*self - 1) as isize),
            *self == isize::MIN ==> r is None,
    {
        self.checked_sub(1)
    }
}

impl Successor for u8 {
    fn next(&self) -> (r: Option<u8>)
        ensures
            *self < u8::MAX ==> r == Some((*self + 1) as u8),
            *self == u8::MAX ==> r is None,
    {
        self.checked_add(1)
    }

    fn prev(&self) -> (r: Option<u8>)
        ensures
            *self > u8::MIN ==> r == Some((*self - 1) as u8),
            *self == u8::MIN ==> r is None,
    {
        self.checked_sub(1)
    }
}

impl Successor for u16 {
    fn next(&self) -> (r: Option<u16>)
        ensures
            *self < u16::MAX ==> r == Some((*self + 1) as u16),
            *self == u16::MAX ==> r is None,
    {
        self.checked_add(1)
    }

    fn prev(&self) -> (r: Option<u16>)
        ensures
            *self > u16::MIN ==> r == Some((*self - 1) as u16),
            *self == u16::MIN ==> r is None,
    {
        self.checked_sub(1)
    }
}

impl Successor for u32 {
    fn next(&self) -> (r: Option<u32>)
        ensures
            *self < u32::MAX ==> r == Some((*self + 1) as u32),
            *self == u32::MAX ==> r is None,
    {
        self.checked_add(1)
    }

    fn prev(&self) -> (r: Option<u32>)
        ensures
            *self > u32::MIN ==> r == Some((*self - 1) as u32),
            *self == u32::MIN ==> r is None,
    {
        self.checked_sub(1)
    }
}

impl Successor for u64 {
    fn next(&self) -> (r: Option<u64>)
        ensures
            *self < u64::MAX ==> r == Some((*self + 1) as u64),
            *self == u64::MAX ==> r is None,
    {
        self.checked_add(1)
    }

    fn prev(&self) -> (r: Option<u64>)
        ensures
            *self > u64::MIN ==> r == Some((*self - 1) as u64),
            *self == u64::MIN ==> r is None,
    {
        self.checked_sub(1)
    }
}

impl Successor for usize {
    fn next(&self) -> (r: Option<usize>)
        ensures
            *self < usize::MAX ==> r == Some((*self + 1) as usize),
            *self == usize::MAX ==> r is None,
    {
        self.checked_add(1)
    }

    fn prev(&self) -> (r: Option<usize>)
        ensures
            *self > usize::MIN ==> r == Some((*self - 1) as usize),
            *self == usize::MIN ==> r is None,
    {
        self.checked_sub(1)
    }
}

} // verus!

//! Intervals as text: `<1..10)` is the interval that includes 1 and excludes
//! 10.
use vstd::prelude::*;
use vstd::std_specs::convert::FromSpec;
use vstd::string::StringExecFns;
use std::ops::Bound;
use crate::range_interval::RangeInterval;
use crate::transform::bound_converted;

verus! {

/// A value that can be written as text inside an interval.
pub trait DisplayExt {
    /// Writes the value as text.
    fn fmt(&self) -> String;
}

/// `t` is a text of the bound that is written first: `<` before an included
/// value, `(` before an excluded one, nothing for no bound.
pub open spec fn is_opening<T: DisplayExt>(b: Bound<T>, t: Seq<char>) -> bool {
    match b {
        Bound::Included(v) => exists|w: String| #[trigger]
            call_ensures(T::fmt, (&v,), w) && t == "<"@ + w@,
        Bound::Excluded(v) => exists|w: String| #[trigger]
            call_ensures(T::fmt, (&v,), w) && t == "("@ + w@,
        Bound::Unbounded => t == Seq::<char>::empty(),
    }
}

/// `t` is a text of the bound that is written last: `>` after an included
/// value, `)` after an excluded one, nothing for no bound.
pub open spec fn is_closing<T: DisplayExt>(b: Bound<T>, t: Seq<char>) -> bool {
    match b {
        Bound::Included(v) => exists|w: String| #[trigger]
            call_ensures(T::fmt, (&v,), w) && t == w@ + ">"@,
        Bound::Excluded(v) => exists|w: String| #[trigger]
            call_ensures(T::fmt, (&v,), w) && t == w@ + ")"@,
        Bound::Unbounded => t == Seq::<char>::empty(),
    }
}

fn opening_text<T: DisplayExt>(b: &Bound<T>) -> (s: String)
    ensures
        is_opening(*b, s@),
{
    match b {
        Bound::Included(v) => {
            let w = v.fmt();
            let mut s = String::from_str("<");
            s.append(w.as_str());
            s
        },
        Bound::Excluded(v) => {
            let w = v.fmt();
            let mut s = String::from_str("(");
            s.append(w.as_str());
            s
        },
        Bound::Unbounded => {
            proof {
                reveal_strlit("");
            }
            let s = String::from_str("");
            assert(s@ =~= Seq::<char>::empty());
            s
        },
    }
}

fn closing_text<T: DisplayExt>(b: &Bound<T>) -> (s: String)
    ensures
        is_closing(*b, s@),
{
    match b {
        Bound::Included(v) => {
            let mut s = v.fmt();
            let ghost w = s;
            s.append(">");
            assert(call_ensures(T::fmt, (v,), w) && s@ == w@ + ">"@);
            s
        },
        Bound::Excluded(v) => {
            let mut s = v.fmt();
            let ghost w = s;
            s.append(")");
            assert(call_ensures(T::fmt, (v,), w) && s@ == w@ + ")"@);
            s
        },
        Bound::Unbounded => {
            proof {
                reveal_strlit("");
            }
            let s = String::from_str("");
            assert(s@ =~= Seq::<char>::empty());
            s
        },
    }
}

impl<T: DisplayExt> RangeInterval<T> {
    /// The bound that is written first: the end bound where the interval is
    /// reversed.
    pub open spec fn written_first(self) -> Bound<T> {
        if self.reverse {
            self.end
        } else {
            self.start
        }
    }

    /// The bound that is written last: the start bound where the interval is
    /// reversed.
    pub open spec fn written_last(self) -> Bound<T> {
        if self.reverse {
            self.start
        } else {
            self.end
        }
    }

    /// `s` is a text of the interval: its two bounds with `..` between them,
    /// in the order in which the interval was written.
    pub open spec fn is_text(self, s: Seq<char>) -> bool {
        exists|a: Seq<char>, b: Seq<char>|
            {
                &&& #[trigger] is_opening(self.written_first(), a)
                &&& #[trigger] is_closing(self.written_last(), b)
                &&& s == a + ".."@ + b
            }
    }

    /// Writes the interval as text.
    pub fn to_string(&self) -> (s: String)
        ensures
            self.is_text(s@),
    {
        let first = if self.reverse {
            &self.end
        } else {
            &self.start
        };
        let last = if self.reverse {
            &self.start
        } else {
            &self.end
        };
        let a = opening_text(first);
        let b = closing_text(last);
        let ghost opening = a@;
        let mut s = a;
        s.append("..");
        s.append(b.as_str());
        assert(is_opening(self.written_first(), opening));
        assert(is_closing(self.written_last(), b@));
        assert(s@ == opening + ".."@ + b@);
        s
    }
}

impl<T: Copy> RangeInterval<T> {
    /// The same interval over a type of values that can be written as text.
    pub fn display<D: DisplayExt + From<T>>(self) -> (r: RangeInterval<D>)
        ensures
            D::obeys_from_spec() ==> r == (RangeInterval {
                reverse: self.reverse,
                start: bound_converted::<T, D>(self.start),
                end: bound_converted::<T, D>(self.end),
            }),
    {
        self.into()
    }
}

} // verus!

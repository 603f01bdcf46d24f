//! The order of the value type, as contracts see it.
use vstd::prelude::*;
use vstd::std_specs::cmp::PartialEqSpec;
use vstd::std_specs::cmp::PartialOrdSpec;
use core::cmp::Ordering;

verus! {

/// `a` is strictly below `b`.
pub open spec fn lt<T: PartialOrd>(a: T, b: T) -> bool {
    a.partial_cmp_spec(&b) == Some(Ordering::Less)
}

/// `a` is below `b` or equal to it.
pub open spec fn le<T: PartialOrd>(a: T, b: T) -> bool {
    a.partial_cmp_spec(&b) == Some(Ordering::Less) || a.partial_cmp_spec(&b) == Some(
        Ordering::Equal,
    )
}

/// `a` is strictly above `b`.
pub open spec fn gt<T: PartialOrd>(a: T, b: T) -> bool {
    a.partial_cmp_spec(&b) == Some(Ordering::Greater)
}

/// `a` is above `b` or equal to it.
pub open spec fn ge<T: PartialOrd>(a: T, b: T) -> bool {
    a.partial_cmp_spec(&b) == Some(Ordering::Greater) || a.partial_cmp_spec(&b) == Some(
        Ordering::Equal,
    )
}

/// `a == b` as the operator of `T` decides it.
pub open spec fn same<T: PartialOrd>(a: T, b: T) -> bool {
    a.eq_spec(&b)
}

/// The operators `==`, `<`, `<=`, `>`, `>=` of `T` compute what `eq_spec` and
/// `partial_cmp_spec` say. It holds of the integer types and of every type
/// whose impls are specified; nothing is known where it fails (floats).
pub open spec fn lawful<T: PartialOrd>() -> bool {
    T::obeys_eq_spec() && T::obeys_partial_cmp_spec()
}

/// `T` is totally ordered and its `==` is equality of values.
pub open spec fn is_total_order<T: PartialOrd>() -> bool {
    &&& lawful::<T>()
    &&& forall|x: T, y: T| #[trigger] x.eq_spec(&y) <==> x == y
    &&& forall|x: T, y: T| (#[trigger] x.partial_cmp_spec(&y)) is Some
    &&& forall|x: T, y: T| #[trigger] x.partial_cmp_spec(&y) == Some(Ordering::Equal) <==> x == y
    &&& forall|x: T, y: T| #[trigger]
        x.partial_cmp_spec(&y) == Some(Ordering::Less) <==> y.partial_cmp_spec(&x) == Some(
            Ordering::Greater,
        )
    &&& forall|x: T, y: T, z: T|
        #[trigger] x.partial_cmp_spec(&y) == Some(Ordering::Less) && #[trigger] y.partial_cmp_spec(
            &z,
        ) == Some(Ordering::Less) ==> x.partial_cmp_spec(&z) == Some(Ordering::Less)
}

/// Over a total order two values are equal, or one is below the other, and
/// never both; the five relations are tied to each other as usual.
pub proof fn lemma_compare<T: PartialOrd>(x: T, y: T)
    requires
        is_total_order::<T>(),
    ensures
        lt(x, y) || x == y || lt(y, x),
        !(lt(x, y) && lt(y, x)),
        !(lt(x, y) && x == y),
        !(lt(y, x) && x == y),
        same(x, y) <==> x == y,
        le(x, y) <==> lt(x, y) || x == y,
        le(x, y) <==> !lt(y, x),
        gt(x, y) <==> lt(y, x),
        ge(x, y) <==> le(y, x),
{
    let o = x.partial_cmp_spec(&y);
    let u = y.partial_cmp_spec(&x);
    assert(o is Some && u is Some);
    assert(o == Some(Ordering::Less) || o == Some(Ordering::Equal) || o == Some(Ordering::Greater));
    assert(u == Some(Ordering::Less) || u == Some(Ordering::Equal) || u == Some(Ordering::Greater));
    assert(o == Some(Ordering::Equal) <==> x == y);
    assert(u == Some(Ordering::Equal) <==> y == x);
    assert(o == Some(Ordering::Less) <==> u == Some(Ordering::Greater));
    assert(u == Some(Ordering::Less) <==> o == Some(Ordering::Greater));
    assert(x.eq_spec(&y) <==> x == y);
}

/// Over a total order "below" is transitive, also through "below or equal".
pub proof fn lemma_transitive<T: PartialOrd>(x: T, y: T, z: T)
    requires
        is_total_order::<T>(),
    ensures
        lt(x, y) && lt(y, z) ==> lt(x, z),
        le(x, y) && lt(y, z) ==> lt(x, z),
        lt(x, y) && le(y, z) ==> lt(x, z),
        le(x, y) && le(y, z) ==> le(x, z),
{
    lemma_compare(x, y);
    lemma_compare(y, z);
    lemma_compare(x, z);
    if lt(x, y) && lt(y, z) {
        assert(x.partial_cmp_spec(&y) == Some(Ordering::Less));
        assert(y.partial_cmp_spec(&z) == Some(Ordering::Less));
        assert(x.partial_cmp_spec(&z) == Some(Ordering::Less));
    }
}

/// The machine integers are totally ordered.
pub proof fn lemma_integers_are_total_orders()
    ensures
        is_total_order::<i8>(),
        is_total_order::<i16>(),
        is_total_order::<i32>(),
        is_total_order::<i64>(),
        is_total_order::<isize>(),
        is_total_order::<u8>(),
        is_total_order::<u16>(),
        is_total_order::<u32>(),
        is_total_order::<u64>(),
        is_total_order::<usize>(),
{
}

} // verus!

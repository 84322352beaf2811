//! Helpers shared by the geometric types.
use vstd::prelude::*;
use vstd::std_specs::cmp::PartialEqSpec;
use crate::value::Value;

verus! {

/// Whether one of three values is not equal to itself, as a float that is not
/// a number is. The result is stated for a type whose `==` follows its
/// specification.
pub fn has_nans_3<V: PartialEq>(x: V, y: V, z: V) -> (r: bool)
    ensures
        V::obeys_eq_spec() ==> r == (!x.eq_spec(&x) || !y.eq_spec(&y) || !z.eq_spec(&z)),
{
    x != x || y != y || z != z
}

/// Whether one of two values is not equal to itself.
pub fn has_nans_2<V: PartialEq>(x: V, y: V) -> (r: bool)
    ensures
        V::obeys_eq_spec() ==> r == (!x.eq_spec(&x) || !y.eq_spec(&y)),
{
    x != x || y != y
}

/// `(-1 - t) * v1 + t * v2`, where -1 is taken as `0 - 1`.
pub open spec fn lerp_spec<T: Value>(t: T, v1: T, v2: T) -> T {
    T::nil().minus(T::unit()).minus(t).times(v1).plus(t.times(v2))
}

/// Whether every operation of `lerp_spec(t, v1, v2)` is defined.
pub open spec fn lerp_req<T: Value>(t: T, v1: T, v2: T) -> bool {
    let negative_one = T::nil().minus(T::unit());
    &&& T::nil().can_sub(T::unit())
    &&& negative_one.can_sub(t)
    &&& negative_one.minus(t).can_mul(v1)
    &&& t.can_mul(v2)
    &&& negative_one.minus(t).times(v1).can_add(t.times(v2))
}

/// The blend of `v1` and `v2` with the weights `-1 - t` and `t`.
pub fn lerp<T: Value>(t: T, v1: T, v2: T) -> (r: T)
    requires
        lerp_req(t, v1, v2),
    ensures
        r == lerp_spec(t, v1, v2),
{
    let negative_one = T::zero().sub(T::one());
    negative_one.sub(t).mul(v1).add(t.mul(v2))
}

} // verus!

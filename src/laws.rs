use core::ops::{Add, Div, Mul, Rem, Sub};
use vstd::prelude::*;
use vstd::std_specs::convert::{FromSpec, TryFromSpec};
use vstd::std_specs::ops::{AddSpec, DivSpec, MulSpec, RemSpec, SubSpec};

use crate::coord::Coord;

verus! {

/// Every operation on two coordinates works on each axis on its own: the `x`
/// of the result comes from the two `x` components alone, and so does `y`.
pub proof fn operations_are_componentwise<
    T: Copy + Add<Output = T> + Sub<Output = T> + Mul<Output = T> + Div<Output = T> + Rem<Output = T>,
>(a: T, b: T, c: T, d: T)
    ensures
        Coord::at(a, b).add_ok(Coord::at(c, d)) == (a.add_req(c) && b.add_req(d)),
        Coord::at(a, b).sum(Coord::at(c, d)) == Coord::at(a.add_spec(c), b.add_spec(d)),
        Coord::at(a, b).sub_ok(Coord::at(c, d)) == (a.sub_req(c) && b.sub_req(d)),
        Coord::at(a, b).difference(Coord::at(c, d)) == Coord::at(a.sub_spec(c), b.sub_spec(d)),
        Coord::at(a, b).mul_ok(Coord::at(c, d)) == (a.mul_req(c) && b.mul_req(d)),
        Coord::at(a, b).product(Coord::at(c, d)) == Coord::at(a.mul_spec(c), b.mul_spec(d)),
        Coord::at(a, b).div_ok(Coord::at(c, d)) == (a.div_req(c) && b.div_req(d)),
        Coord::at(a, b).quotient(Coord::at(c, d)) == Coord::at(a.div_spec(c), b.div_spec(d)),
        Coord::at(a, b).rem_ok(Coord::at(c, d)) == (a.rem_req(c) && b.rem_req(d)),
        Coord::at(a, b).remainder(Coord::at(c, d)) == Coord::at(a.rem_spec(c), b.rem_spec(d)),
{
}

/// A scalar operand acts as the coordinate that holds it in both components:
/// for every operator, `p op s` is defined exactly when `p op (s, s)` is, and
/// gives the same coordinate.
pub proof fn scalar_operand_broadcasts<
    T: Copy + Add<Output = T> + Sub<Output = T> + Mul<Output = T> + Div<Output = T> + Rem<Output = T>,
>(p: Coord<T>, s: T)
    ensures
        <Coord<T> as AddSpec<T>>::obeys_add_spec() == T::obeys_add_spec(),
        <Coord<T> as AddSpec<T>>::add_req(p, s) == p.add_ok(Coord::at(s, s)),
        <Coord<T> as AddSpec<T>>::add_spec(p, s) == p.sum(Coord::at(s, s)),
        <Coord<T> as SubSpec<T>>::obeys_sub_spec() == T::obeys_sub_spec(),
        <Coord<T> as SubSpec<T>>::sub_req(p, s) == p.sub_ok(Coord::at(s, s)),
        <Coord<T> as SubSpec<T>>::sub_spec(p, s) == p.difference(Coord::at(s, s)),
        <Coord<T> as MulSpec<T>>::obeys_mul_spec() == T::obeys_mul_spec(),
        <Coord<T> as MulSpec<T>>::mul_req(p, s) == p.mul_ok(Coord::at(s, s)),
        <Coord<T> as MulSpec<T>>::mul_spec(p, s) == p.product(Coord::at(s, s)),
        <Coord<T> as DivSpec<T>>::obeys_div_spec() == T::obeys_div_spec(),
        <Coord<T> as DivSpec<T>>::div_req(p, s) == p.div_ok(Coord::at(s, s)),
        <Coord<T> as DivSpec<T>>::div_spec(p, s) == p.quotient(Coord::at(s, s)),
        <Coord<T> as RemSpec<T>>::obeys_rem_spec() == T::obeys_rem_spec(),
        <Coord<T> as RemSpec<T>>::rem_req(p, s) == p.rem_ok(Coord::at(s, s)),
        <Coord<T> as RemSpec<T>>::rem_spec(p, s) == p.remainder(Coord::at(s, s)),
{
}

/// A pair and a two-element array holding the same values, by value or by
/// reference, convert to the same coordinate: the one `new` builds from them.
pub proof fn pair_and_array_agree<T: Copy>(t: (T, T), a: [T; 2])
    requires
        a@[0] == t.0,
        a@[1] == t.1,
    ensures
        <Coord<T> as FromSpec<(T, T)>>::obeys_from_spec(),
        <Coord<T> as FromSpec<[T; 2]>>::obeys_from_spec(),
        <Coord<T> as FromSpec<&(T, T)>>::obeys_from_spec(),
        <Coord<T> as FromSpec<&[T; 2]>>::obeys_from_spec(),
        <Coord<T> as FromSpec<(T, T)>>::from_spec(t) == Coord::at(t.0, t.1),
        <Coord<T> as FromSpec<[T; 2]>>::from_spec(a) == Coord::at(t.0, t.1),
        <Coord<T> as FromSpec<&(T, T)>>::from_spec(&t) == Coord::at(t.0, t.1),
        <Coord<T> as FromSpec<&[T; 2]>>::from_spec(&a) == Coord::at(t.0, t.1),
{
}

/// A vector converts exactly when its length is two, and then to the
/// coordinate of its first and second values.
pub proof fn vec_converts_iff_pair<T: Copy>(v: Vec<T>)
    ensures
        <Coord<T> as TryFromSpec<Vec<T>>>::obeys_try_from_spec(),
        <Coord<T> as TryFromSpec<Vec<T>>>::try_from_spec(v) is Ok <==> v@.len() == 2,
        v@.len() == 2 ==> <Coord<T> as TryFromSpec<Vec<T>>>::try_from_spec(v) == Ok::<
            Coord<T>,
            (),
        >(Coord::at(v@[0], v@[1])),
{
}

} // verus!

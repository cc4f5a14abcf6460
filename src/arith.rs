//! Componentwise arithmetic. Each operator takes anything that converts into a
//! coordinate (a scalar, a pair, an array) and applies the element operation on
//! each axis. Its contract holds where the conversion has a specification; for
//! a `Coord` operand, whose conversion is std's identity, the named methods
//! (`add_coord` and the rest) state the result directly.
use core::ops::{Add, AddAssign, Sub, SubAssign, Mul, MulAssign, Div, DivAssign, Rem, RemAssign};
use vstd::prelude::*;
use vstd::std_specs::convert::IntoSpec;
use vstd::std_specs::ops::{AddSpec, SubSpec, MulSpec, DivSpec, RemSpec};

use crate::coord::Coord;

verus! {

impl<T: Copy + Add<Output = T>> Coord<T> {
    /// Whether `+` is defined on both pairs of components of `self` and `o`.
    pub open spec fn add_ok(self, o: Coord<T>) -> bool {
        self.x.add_req(o.x) && self.y.add_req(o.y)
    }

    /// The componentwise `+` of `self` and `o`.
    pub open spec fn sum(self, o: Coord<T>) -> Coord<T> {
        Coord::at(self.x.add_spec(o.x), self.y.add_spec(o.y))
    }

    /// The componentwise `+` of `self` and `o`, each axis on its own.
    pub fn add_coord(self, o: Coord<T>) -> (r: Coord<T>)
        requires
            self.add_ok(o),
        ensures
            T::obeys_add_spec() ==> r == self.sum(o),
    {
        Coord { x: self.x.add(o.x), y: self.y.add(o.y) }
    }
}

impl<T: Copy + Add<Output = T>, I: Into<Coord<T>>> vstd::std_specs::ops::AddSpecImpl<I> for Coord<T> {
    open spec fn obeys_add_spec() -> bool {
        T::obeys_add_spec() && I::obeys_into_spec()
    }

    open spec fn add_req(self, rhs: I) -> bool {
        I::obeys_into_spec() && self.add_ok(rhs.into_spec())
    }

    open spec fn add_spec(self, rhs: I) -> Coord<T> {
        self.sum(rhs.into_spec())
    }
}

impl<T: Copy + Add<Output = T>, I: Into<Coord<T>>> Add<I> for Coord<T> {
    type Output = Self;

    fn add(self, other: I) -> (r: Self) {
        let o: Coord<T> = other.into();
        self.add_coord(o)
    }
}

impl<T: Copy + Add<Output = T>, I: Into<Coord<T>>> AddAssign<I> for Coord<T> {
    /// Replaces `self` with `self + other`.
    fn add_assign(&mut self, other: I)
        requires
            old(self).add_req(other),
        ensures
            <Coord<T> as AddSpec<I>>::obeys_add_spec() ==> *final(self) == old(self).add_spec(other),
    {
        *self = *self + other;
    }
}

impl<T: Copy + Sub<Output = T>> Coord<T> {
    /// Whether `-` is defined on both pairs of components of `self` and `o`.
    pub open spec fn sub_ok(self, o: Coord<T>) -> bool {
        self.x.sub_req(o.x) && self.y.sub_req(o.y)
    }

    /// The componentwise `-` of `self` and `o`.
    pub open spec fn difference(self, o: Coord<T>) -> Coord<T> {
        Coord::at(self.x.sub_spec(o.x), self.y.sub_spec(o.y))
    }

    /// The componentwise `-` of `self` and `o`, each axis on its own.
    pub fn sub_coord(self, o: Coord<T>) -> (r: Coord<T>)
        requires
            self.sub_ok(o),
        ensures
            T::obeys_sub_spec() ==> r == self.difference(o),
    {
        Coord { x: self.x.sub(o.x), y: self.y.sub(o.y) }
    }
}

impl<T: Copy + Sub<Output = T>, I: Into<Coord<T>>> vstd::std_specs::ops::SubSpecImpl<I> for Coord<T> {
    open spec fn obeys_sub_spec() -> bool {
        T::obeys_sub_spec() && I::obeys_into_spec()
    }

    open spec fn sub_req(self, rhs: I) -> bool {
        I::obeys_into_spec() && self.sub_ok(rhs.into_spec())
    }

    open spec fn sub_spec(self, rhs: I) -> Coord<T> {
        self.difference(rhs.into_spec())
    }
}

impl<T: Copy + Sub<Output = T>, I: Into<Coord<T>>> Sub<I> for Coord<T> {
    type Output = Self;

    fn sub(self, other: I) -> (r: Self) {
        let o: Coord<T> = other.into();
        self.sub_coord(o)
    }
}

impl<T: Copy + Sub<Output = T>, I: Into<Coord<T>>> SubAssign<I> for Coord<T> {
    /// Replaces `self` with `self - other`.
    fn sub_assign(&mut self, other: I)
        requires
            old(self).sub_req(other),
        ensures
            <Coord<T> as SubSpec<I>>::obeys_sub_spec() ==> *final(self) == old(self).sub_spec(other),
    {
        *self = *self - other;
    }
}

impl<T: Copy + Mul<Output = T>> Coord<T> {
    /// Whether `*` is defined on both pairs of components of `self` and `o`.
    pub open spec fn mul_ok(self, o: Coord<T>) -> bool {
        self.x.mul_req(o.x) && self.y.mul_req(o.y)
    }

    /// The componentwise `*` of `self` and `o`.
    pub open spec fn product(self, o: Coord<T>) -> Coord<T> {
        Coord::at(self.x.mul_spec(o.x), self.y.mul_spec(o.y))
    }

    /// The componentwise `*` of `self` and `o`, each axis on its own.
    pub fn mul_coord(self, o: Coord<T>) -> (r: Coord<T>)
        requires
            self.mul_ok(o),
        ensures
            T::obeys_mul_spec() ==> r == self.product(o),
    {
        Coord { x: self.x.mul(o.x), y: self.y.mul(o.y) }
    }
}

impl<T: Copy + Mul<Output = T>, I: Into<Coord<T>>> vstd::std_specs::ops::MulSpecImpl<I> for Coord<T> {
    open spec fn obeys_mul_spec() -> bool {
        T::obeys_mul_spec() && I::obeys_into_spec()
    }

    open spec fn mul_req(self, rhs: I) -> bool {
        I::obeys_into_spec() && self.mul_ok(rhs.into_spec())
    }

    open spec fn mul_spec(self, rhs: I) -> Coord<T> {
        self.product(rhs.into_spec())
    }
}

impl<T: Copy + Mul<Output = T>, I: Into<Coord<T>>> Mul<I> for Coord<T> {
    type Output = Self;

    fn mul(self, other: I) -> (r: Self) {
        let o: Coord<T> = other.into();
        self.mul_coord(o)
    }
}

impl<T: Copy + Mul<Output = T>, I: Into<Coord<T>>> MulAssign<I> for Coord<T> {
    /// Replaces `self` with `self * other`.
    fn mul_assign(&mut self, other: I)
        requires
            old(self).mul_req(other),
        ensures
            <Coord<T> as MulSpec<I>>::obeys_mul_spec() ==> *final(self) == old(self).mul_spec(other),
    {
        *self = *self * other;
    }
}

impl<T: Copy + Div<Output = T>> Coord<T> {
    /// Whether `/` is defined on both pairs of components of `self` and `o`.
    pub open spec fn div_ok(self, o: Coord<T>) -> bool {
        self.x.div_req(o.x) && self.y.div_req(o.y)
    }

    /// The componentwise `/` of `self` and `o`.
    pub open spec fn quotient(self, o: Coord<T>) -> Coord<T> {
        Coord::at(self.x.div_spec(o.x), self.y.div_spec(o.y))
    }

    /// The componentwise `/` of `self` and `o`, each axis on its own. An integer divisor component must be nonzero, and a signed
    /// division must not overflow.
    pub fn div_coord(self, o: Coord<T>) -> (r: Coord<T>)
        requires
            self.div_ok(o),
        ensures
            T::obeys_div_spec() ==> r == self.quotient(o),
    {
        Coord { x: self.x.div(o.x), y: self.y.div(o.y) }
    }
}

impl<T: Copy + Div<Output = T>, I: Into<Coord<T>>> vstd::std_specs::ops::DivSpecImpl<I> for Coord<T> {
    open spec fn obeys_div_spec() -> bool {
        T::obeys_div_spec() && I::obeys_into_spec()
    }

    open spec fn div_req(self, rhs: I) -> bool {
        I::obeys_into_spec() && self.div_ok(rhs.into_spec())
    }

    open spec fn div_spec(self, rhs: I) -> Coord<T> {
        self.quotient(rhs.into_spec())
    }
}

impl<T: Copy + Div<Output = T>, I: Into<Coord<T>>> Div<I> for Coord<T> {
    type Output = Self;

    fn div(self, other: I) -> (r: Self) {
        let o: Coord<T> = other.into();
        self.div_coord(o)
    }
}

impl<T: Copy + Div<Output = T>, I: Into<Coord<T>>> DivAssign<I> for Coord<T> {
    /// Replaces `self` with `self / other`.
    fn div_assign(&mut self, other: I)
        requires
            old(self).div_req(other),
        ensures
            <Coord<T> as DivSpec<I>>::obeys_div_spec() ==> *final(self) == old(self).div_spec(other),
    {
        *self = *self / other;
    }
}

impl<T: Copy + Rem<Output = T>> Coord<T> {
    /// Whether `%` is defined on both pairs of components of `self` and `o`.
    pub open spec fn rem_ok(self, o: Coord<T>) -> bool {
        self.x.rem_req(o.x) && self.y.rem_req(o.y)
    }

    /// The componentwise `%` of `self` and `o`.
    pub open spec fn remainder(self, o: Coord<T>) -> Coord<T> {
        Coord::at(self.x.rem_spec(o.x), self.y.rem_spec(o.y))
    }

    /// The componentwise `%` of `self` and `o`, each axis on its own. An integer divisor component must be nonzero, and a signed
    /// remainder must not overflow.
    pub fn rem_coord(self, o: Coord<T>) -> (r: Coord<T>)
        requires
            self.rem_ok(o),
        ensures
            T::obeys_rem_spec() ==> r == self.remainder(o),
    {
        Coord { x: self.x.rem(o.x), y: self.y.rem(o.y) }
    }
}

impl<T: Copy + Rem<Output = T>, I: Into<Coord<T>>> vstd::std_specs::ops::RemSpecImpl<I> for Coord<T> {
    open spec fn obeys_rem_spec() -> bool {
        T::obeys_rem_spec() && I::obeys_into_spec()
    }

    open spec fn rem_req(self, rhs: I) -> bool {
        I::obeys_into_spec() && self.rem_ok(rhs.into_spec())
    }

    open spec fn rem_spec(self, rhs: I) -> Coord<T> {
        self.remainder(rhs.into_spec())
    }
}

impl<T: Copy + Rem<Output = T>, I: Into<Coord<T>>> Rem<I> for Coord<T> {
    type Output = Self;

    fn rem(self, other: I) -> (r: Self) {
        let o: Coord<T> = other.into();
        self.rem_coord(o)
    }
}

impl<T: Copy + Rem<Output = T>, I: Into<Coord<T>>> RemAssign<I> for Coord<T> {
    /// Replaces `self` with `self % other`.
    fn rem_assign(&mut self, other: I)
        requires
            old(self).rem_req(other),
        ensures
            <Coord<T> as RemSpec<I>>::obeys_rem_spec() ==> *final(self) == old(self).rem_spec(other),
    {
        *self = *self % other;
    }
}

} // verus!

use vstd::prelude::*;

use crate::coord::Coord;

verus! {

/// A single value fills both components.
impl<T: Copy> From<T> for Coord<T> {
    fn from(v: T) -> (r: Coord<T>) {
        Coord { x: v, y: v }
    }
}

impl<T: Copy> vstd::std_specs::convert::FromSpecImpl<T> for Coord<T> {
    open spec fn obeys_from_spec() -> bool {
        true
    }

    open spec fn from_spec(v: T) -> Coord<T> {
        Coord::at(v, v)
    }
}

/// A pair gives `x` from its first place and `y` from its second.
impl<T: Copy> From<(T, T)> for Coord<T> {
    fn from(v: (T, T)) -> (r: Coord<T>) {
        Coord { x: v.0, y: v.1 }
    }
}

impl<T: Copy> vstd::std_specs::convert::FromSpecImpl<(T, T)> for Coord<T> {
    open spec fn obeys_from_spec() -> bool {
        true
    }

    open spec fn from_spec(v: (T, T)) -> Coord<T> {
        Coord::at(v.0, v.1)
    }
}

impl<'a, T: Copy> From<&'a (T, T)> for Coord<T> {
    fn from(v: &'a (T, T)) -> (r: Coord<T>) {
        Coord { x: v.0, y: v.1 }
    }
}

impl<'a, T: Copy> vstd::std_specs::convert::FromSpecImpl<&'a (T, T)> for Coord<T> {
    open spec fn obeys_from_spec() -> bool {
        true
    }

    open spec fn from_spec(v: &'a (T, T)) -> Coord<T> {
        Coord::at(v.0, v.1)
    }
}

/// A two-element array gives `x` from index 0 and `y` from index 1.
impl<T: Copy> From<[T; 2]> for Coord<T> {
    fn from(v: [T; 2]) -> (r: Coord<T>) {
        Coord { x: v[0], y: v[1] }
    }
}

impl<T: Copy> vstd::std_specs::convert::FromSpecImpl<[T; 2]> for Coord<T> {
    open spec fn obeys_from_spec() -> bool {
        true
    }

    open spec fn from_spec(v: [T; 2]) -> Coord<T> {
        Coord::at(v@[0], v@[1])
    }
}

impl<'a, T: Copy> From<&'a [T; 2]> for Coord<T> {
    fn from(v: &'a [T; 2]) -> (r: Coord<T>) {
        Coord { x: v[0], y: v[1] }
    }
}

impl<'a, T: Copy> vstd::std_specs::convert::FromSpecImpl<&'a [T; 2]> for Coord<T> {
    open spec fn obeys_from_spec() -> bool {
        true
    }

    open spec fn from_spec(v: &'a [T; 2]) -> Coord<T> {
        Coord::at(v@[0], v@[1])
    }
}

/// A vector converts only when it holds exactly two values; any other length
/// is refused with `Err(())`.
impl<T: Copy> TryFrom<Vec<T>> for Coord<T> {
    type Error = ();

    fn try_from(v: Vec<T>) -> (r: Result<Coord<T>, ()>) {
        if v.len() == 2 {
            Ok(Coord { x: v[0], y: v[1] })
        } else {
            Err(())
        }
    }
}

impl<T: Copy> vstd::std_specs::convert::TryFromSpecImpl<Vec<T>> for Coord<T> {
    open spec fn obeys_try_from_spec() -> bool {
        true
    }

    open spec fn try_from_spec(v: Vec<T>) -> Result<Coord<T>, ()> {
        if v@.len() == 2 {
            Ok(Coord::at(v@[0], v@[1]))
        } else {
            Err(())
        }
    }
}

} // verus!

use vstd::prelude::*;
use vstd::std_specs::convert::FromSpec;

verus! {

/// A point, or a vector, in the plane over the element type `T`.
#[derive(Clone, Copy, PartialEq, Debug)]
pub struct Coord<T> {
    pub x: T,
    pub y: T,
}

impl<T> Coord<T> {
    /// The coordinate with the given components.
    pub open spec fn at(x: T, y: T) -> Coord<T> {
        Coord { x, y }
    }
}

impl<T: Copy> Coord<T> {
    /// The coordinate `(x, y)`.
    pub fn new(x: T, y: T) -> (r: Self)
        ensures
            r == Coord::at(x, y),
    {
        Coord { x, y }
    }

    /// Converts both components to the element type `J`, each through `J::from`.
    pub fn into<J: From<T>>(self) -> (r: Coord<J>)
        ensures
            J::obeys_from_spec() ==> r == Coord::at(J::from_spec(self.x), J::from_spec(self.y)),
    {
        Coord { x: J::from(self.x), y: J::from(self.y) }
    }
}

} // verus!

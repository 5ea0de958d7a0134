//! Density function positions.
use vstd::prelude::*;

verus! {

/// A position used in noise sampling.
pub trait NoisePos {
    fn x(&self) -> i32;

    fn y(&self) -> i32;

    fn z(&self) -> i32;
}

/// An unblended noise position.
#[derive(Clone, Copy, Debug, PartialEq, Eq, Structural)]
pub struct UnblendedNoisePos {
    x: i32,
    y: i32,
    z: i32,
}

impl UnblendedNoisePos {
    /// The coordinates of the position, as a triple.
    pub closed spec fn coords(self) -> (i32, i32, i32) {
        (self.x, self.y, self.z)
    }

    /// The position `(x, y, z)`.
    pub fn new(x: i32, y: i32, z: i32) -> (r: Self)
        ensures
            r.coords() == (x, y, z),
    {
        Self { x, y, z }
    }
}

impl NoisePos for UnblendedNoisePos {
    fn x(&self) -> (r: i32)
        ensures
            r == self.coords().0,
    {
        self.x
    }

    fn y(&self) -> (r: i32)
        ensures
            r == self.coords().1,
    {
        self.y
    }

    fn z(&self) -> (r: i32)
        ensures
            r == self.coords().2,
    {
        self.z
    }
}

} // verus!

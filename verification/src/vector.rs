//! Triples of coordinates.

use vstd::prelude::*;

verus! {

/// Display units per astronomical unit: the factor by which ecliptic
/// coordinates are stretched before they are drawn.
pub const DISPLAY_SCALE: u32 = 2;

/// An ordered triple of coordinates in a scalar type `S` of the caller's
/// choosing. The library stores and moves the components and never computes
/// with them.
#[derive(Clone, Copy, Debug, PartialEq)]
pub struct Vec3<S> {
    pub x: S,
    pub y: S,
    pub z: S,
}

impl<S: Copy> Vec3<S> {
    /// The triple `(x, y, z)`.
    pub fn new(x: S, y: S, z: S) -> (v: Vec3<S>)
        ensures
            v == (Vec3 { x, y, z }),
    {
        Vec3 { x, y, z }
    }

    /// The triple in the display frame of a point given in the ecliptic
    /// frame. The ecliptic pole, the third ecliptic axis, is the vertical of
    /// the display frame, which is its second axis: the last two components
    /// change places.
    pub fn from_ecliptic(x: S, y: S, z: S) -> (v: Vec3<S>)
        ensures
            v == (Vec3 { x: x, y: z, z: y }),
    {
        Vec3 { x: x, y: z, z: y }
    }

    /// The first component.
    pub fn x(&self) -> (x: S)
        ensures
            x == self.x,
    {
        self.x
    }

    /// The second component.
    pub fn y(&self) -> (y: S)
        ensures
            y == self.y,
    {
        self.y
    }

    /// The third component.
    pub fn z(&self) -> (z: S)
        ensures
            z == self.z,
    {
        self.z
    }
}

} // verus!

//! Earth-Centered Inertial coordinates.
use crate::astro::coords::ecef::Ecef;
use vstd::prelude::*;

verus! {

/// Earth-Centered Inertial coordinates, over any length type `L`.
#[derive(Clone, Copy, Debug)]
pub struct Eci<L> {
    pub x: L,
    pub y: L,
    pub z: L,
}

impl<L> Eci<L> {
    /// An inertial vector from its three components.
    pub fn new(x: L, y: L, z: L) -> (r: Self)
        ensures
            r.x == x,
            r.y == y,
            r.z == z,
    {
        Eci { x, y, z }
    }

    /// Rotates the vector about the polar axis into the Earth-fixed frame.
    ///
    /// `rotate` turns the equatorial components `(x, y)` by the sidereal
    /// angle; the polar component passes through unchanged.
    pub fn to_ecef<R>(self, rotate: R) -> (r: Ecef<L>) where R: FnOnce(&L, &L) -> (L, L)
        requires
            rotate.requires((&self.x, &self.y)),
        ensures
            rotate.ensures((&self.x, &self.y), (r.x, r.y)),
            r.z == self.z,
    {
        let (x, y) = rotate(&self.x, &self.y);
        Ecef { x, y, z: self.z }
    }
}

} // verus!

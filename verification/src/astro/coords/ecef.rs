//! Earth-Centered Earth-Fixed coordinates.
use vstd::prelude::*;

verus! {

/// Earth-Centered Earth-Fixed coordinates, over any length type `L`.
#[derive(Clone, Copy, Debug)]
pub struct Ecef<L> {
    pub x: L,
    pub y: L,
    pub z: L,
}

impl<L> Ecef<L> {
    /// An Earth-fixed vector from its three components.
    pub fn new(x: L, y: L, z: L) -> (r: Self)
        ensures
            r.x == x,
            r.y == y,
            r.z == z,
    {
        Ecef { x, y, z }
    }

    /// The vector from `rhs` to `self`, component by component: `minus`
    /// subtracts two lengths.
    pub fn sub<M>(self, rhs: Self, minus: &M) -> (r: Self) where M: Fn(L, L) -> L
        requires
            minus.requires((self.x, rhs.x)),
            minus.requires((self.y, rhs.y)),
            minus.requires((self.z, rhs.z)),
        ensures
            minus.ensures((self.x, rhs.x), r.x),
            minus.ensures((self.y, rhs.y), r.y),
            minus.ensures((self.z, rhs.z), r.z),
    {
        let x = minus(self.x, rhs.x);
        let y = minus(self.y, rhs.y);
        let z = minus(self.z, rhs.z);
        Ecef { x, y, z }
    }
}

} // verus!

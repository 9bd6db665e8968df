//! Topocentric South-East-Zenith coordinates.
use vstd::prelude::*;

verus! {

/// A vector in the South-East-Zenith frame of an observer, over any length
/// type `L`.
#[derive(Clone, Copy, Debug)]
pub struct Sez<L> {
    pub south: L,
    pub east: L,
    pub zenith: L,
}

impl<L> Sez<L> {
    /// A topocentric vector from its three components.
    pub fn new(south: L, east: L, zenith: L) -> (r: Self)
        ensures
            r.south == south,
            r.east == east,
            r.zenith == zenith,
    {
        Sez { south, east, zenith }
    }
}

} // verus!

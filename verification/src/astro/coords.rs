//! Frame-tagged coordinates. Each frame has a type of its own, so a vector
//! of one frame cannot stand where another frame is expected.
pub mod ecef;
pub mod eci;
pub mod geodetic;
pub mod sez;

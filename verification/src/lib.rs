//! Verified core of a satellite trajectory service: calendar arithmetic for
//! the time system, the frame-tagged data model, the selective orchestration
//! of position and look-angle computations, and what the network boundary
//! decides before and after a computation.
//!
//! The library does no floating-point arithmetic of its own. Lengths, angles
//! and the numbers of the wire are type parameters, and every numerical step
//! is a function that the caller hands in. The contracts say which steps
//! run, in which order, on which values, and what becomes of their results.
pub mod astro;
pub mod domain;
pub mod infrastructure;
pub mod service;
pub mod transport;

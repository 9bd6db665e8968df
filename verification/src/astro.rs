//! Astrodynamics: time system, coordinate frames and orchestration.
pub mod coords;
pub mod look_angles;
pub mod models;
pub mod position;
pub mod propagator;
pub mod time;

//! One request, from the element set to the result and its record.
pub mod look_angles;
pub mod position;

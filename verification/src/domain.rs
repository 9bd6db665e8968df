//! Errors and identifiers shared by the whole service.
pub mod errors;
pub mod models;

//! What is made of the answers of other services.
pub mod tle_client;

//! What the process is configured with.
pub mod config;
pub mod logger;

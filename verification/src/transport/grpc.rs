//! The gRPC boundary: validation of requests and presentation of results.
pub mod converters;
pub mod messages;
pub mod status;
pub mod trajectory;

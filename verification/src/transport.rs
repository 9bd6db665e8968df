//! What the network boundary decides before and after a computation.
pub mod adapter;
pub mod grpc;

//! Protocols for parser outputs.

pub mod errors;
pub mod tokens;
pub mod parameters;
pub mod control_flow;

pub use errors::InternalError;

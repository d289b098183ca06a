//! An execution framework for parser generators.

pub mod utils;
pub mod streams;
pub mod control_flow;

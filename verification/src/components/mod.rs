//! The components a grammar is made of.

pub mod direct;
pub mod indirect;
pub mod synthesis;

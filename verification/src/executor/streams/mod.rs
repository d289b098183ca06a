//! Variants of stream-like objects.

pub mod traits;
pub mod channels;
pub mod combinators;

//! Tokens: components matched directly against the input.

use vstd::prelude::*;

use crate::pipeline::{InputElement, Sourced};

verus! {

/// A token, read from input elements.
pub trait Token: Sourced {
    /// The input element tokens are read from.
    type Source: InputElement;
}

} // verus!

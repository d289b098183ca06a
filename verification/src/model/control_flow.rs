//! Parsers seen as converters from one kind of element to another.

use vstd::prelude::*;

verus! {

/// A parser turning `Input` elements into `Output` elements.
pub trait Parser {
    /// What the parser reads.
    type Input;
    /// What the parser produces.
    type Output;
}

} // verus!

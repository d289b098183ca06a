//! The stages of a parsing pipeline and the chunks they exchange.

use vstd::prelude::*;

use crate::components::{direct::Token, indirect::Reference};
use crate::messaging::{Readable, Writable};

use core::ops::Range;

verus! {

/// Something derived from a source of input.
pub trait Sourced {
    /// The input it was derived from.
    type Source;
}

/// The whole input that sourced values come from.
pub trait CollectiveSource<S> {}

/// A sourced value that can name the input it came from.
pub trait SourceOrigin: Sourced {
    /// The whole input.
    type CS: CollectiveSource<Self::Source>;

    /// The input this value came from.
    fn original_source(&self) -> Self::CS;
}

/// A range of positions in the input.
#[derive(Debug)]
pub struct Extent(pub Range<usize>);

impl Clone for Extent {
    fn clone(&self) -> (r: Self)
        ensures
            r.0 == self.0,
    {
        Extent(Range { start: self.0.start, end: self.0.end })
    }
}

/// A sourced value that knows which part of the input it covers.
pub trait CoversExtent: Sourced + SourceOrigin {
    /// The positions covered.
    fn covers_extent(&self) -> Extent;
}

/// An element of the input.
pub trait InputElement {}

/// The input stage: reads input elements.
pub trait Input: Readable {
    /// The input elements read.
    type ReadChunk: InputElement;
}

/// A token together with where it came from.
pub trait SourcedToken: CoversExtent {
    /// The token.
    type Tok: Token;

    /// The token itself.
    fn token(&self) -> &Self::Tok;
}

/// The tokenizer stage: input elements in, sourced tokens out.
pub trait Tokenizer: Readable + Writable {
    /// Input elements.
    type WriteChunk: InputElement;
    /// Sourced tokens.
    type ReadChunk: SourcedToken;
}

/// A match of a reference, covering some tokens.
pub trait Match: CoversExtent {
    /// The tokens matched.
    type Source: SourcedToken;
    /// The reference matched.
    type Ref: Reference;

    /// The reference itself.
    fn reference(&self) -> &Self::Ref;
}

/// The parser stage: sourced tokens in, matches out.
pub trait Parser: Readable + Writable {
    /// Sourced tokens.
    type WriteChunk: SourcedToken;
    /// Matches.
    type ReadChunk: Match;
}

/// The final stage: consumes matches.
pub trait Collector: Writable {
    /// Matches.
    type WriteChunk: Match;
}

} // verus!

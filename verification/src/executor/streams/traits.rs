//! The synchronous stream interfaces.

use vstd::prelude::*;

use crate::messaging::{Readable, Writable};

verus! {

/// A synchronous readable stream-like interface for efficient piping logic.
pub trait Peekable: Readable + Send + Sync {
    /// Whether `peeked` is an outcome that peeking this stream may give; any outcome, unless
    /// the stream says more.
    open spec fn may_peek(&self, peeked: Option<Self::ReadChunk>) -> bool {
        true
    }

    /// Pick off the top element, if possible without contention.
    fn peek(&self) -> (peeked: Option<Self::ReadChunk>)
        ensures
            self.may_peek(peeked),
    ;
}

/// A synchronous writable stream-like interface for efficient piping logic.
pub trait Pushable: Writable + Send + Sync {
    /// Whether `pushed` is an outcome that pushing `chunk` into this stream may give; any
    /// outcome, unless the stream says more.
    open spec fn may_push(&self, chunk: Self::WriteChunk, pushed: Result<(), Self::WriteChunk>) -> bool {
        true
    }

    /// Push a top element, if possible without contention; a refused element is handed back.
    fn push(&self, chunk: Self::WriteChunk) -> (pushed: Result<(), Self::WriteChunk>)
        ensures
            self.may_push(chunk, pushed),
    ;
}

} // verus!

//! The chunk types that flow into and out of each stage.

use vstd::prelude::*;

verus! {

/// Something that produces chunks.
pub trait Readable {
    /// The chunk handed out by each read.
    type ReadChunk: Send;
}

/// Something that consumes chunks.
pub trait Writable {
    /// The chunk accepted by each write.
    type WriteChunk: Send;
}

} // verus!

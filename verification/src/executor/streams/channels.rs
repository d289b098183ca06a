//! How the buffers of channels are configured.

use vstd::prelude::*;

verus! {

/// Types of channel inside a duplex channel.
#[derive(Copy, Clone, Debug)]
pub enum BufferConfig {
    /// A bounded channel holding at most this many chunks.
    Finite(usize),
    /// An unbounded channel.
    Infinite,
}

impl Default for BufferConfig {
    fn default() -> (r: Self)
        ensures
            r == BufferConfig::Infinite,
    {
        BufferConfig::Infinite
    }
}

} // verus!

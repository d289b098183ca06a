//! References: components that stand for other productions.

use vstd::prelude::*;

verus! {

/// A reference to another production.
pub trait Reference {}

} // verus!

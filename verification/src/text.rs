//! Text input for the tokenizer.

use vstd::prelude::*;

verus! {

/// A whole text, read as input.
pub struct StringInput(pub String);

} // verus!

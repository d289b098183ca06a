//! Grammar cases and the collectors that turn their elements into results.

use vstd::prelude::*;

use crate::components::{direct, indirect, synthesis};
use crate::type_info::StaticTypeInfo;

verus! {

/// One alternative of a production: a sequence of tokens and references.
pub trait GrammarCase {
    /// The tokens this case matches directly.
    type Tok: direct::Token;
    /// The productions this case refers to.
    type Ref: indirect::Reference;
    /// The elements of the case, in order.
    type Elements: Iterator<Item = synthesis::CaseElement<Self::Tok, Self::Ref>>;

    /// The elements of this case.
    fn elements(&self) -> Self::Elements;
}

/// Builds the result of a case out of its arguments.
pub trait Collector {
    /// What the collector consumes.
    type Args;
    /// What the collector produces; its type is known statically.
    type Result: StaticTypeInfo;

    /// Build the result.
    fn collect(&self, args: Self::Args) -> Self::Result;
}

} // verus!

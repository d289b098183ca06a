//! How cases, productions and grammars are put together.

use vstd::prelude::*;

use crate::collection::{Collector, GrammarCase};

verus! {

/// An element of a case: either a token or a reference.
#[derive(Debug, Copy, Clone, PartialEq, Eq, PartialOrd, Ord)]
pub enum CaseElement<Tok, Ref> {
    /// A token matched directly.
    Tok(Tok),
    /// A reference to another production.
    Ref(Ref),
}

/// A case of a grammar, able to collect its own result.
pub trait Case: GrammarCase + Collector {}

/// A production: a collection of cases with a common result.
pub trait Production: IntoIterator {
    /// The common result of the cases.
    type Result;
    /// The case type.
    type C: Case<Result = Self::Result>;
    /// Each item converts into a case.
    type Item: Into<Self::C>;
}

/// A grammar: a collection of named productions.
pub trait Grammar: IntoIterator {
    /// The production type.
    type P: Production;
    /// Each item converts into a reference paired with the production it names.
    type Item: Into<(<<Self::P as Production>::C as GrammarCase>::Ref, Self::P)>;
}

} // verus!

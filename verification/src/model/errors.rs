//! The errors of the data model, gathered in one type.

use vstd::prelude::*;

use super::parameters::ParameterResolutionError;
use super::tokens::TokenError;

verus! {

/// Any error of the data model.
#[derive(Clone, Debug)]
pub enum InternalError {
    /// token error
    Token(TokenError),
    /// parameter resolution error
    Parameter(ParameterResolutionError),
}

impl InternalError {
    /// The human-readable description of the error.
    pub open spec fn spec_message(self) -> Seq<char> {
        match self {
            InternalError::Token(e) => "token error: "@ + e.spec_message(),
            InternalError::Parameter(e) => "parameter resolution error: "@ + e.spec_message(),
        }
    }

    /// Describe the error for humans.
    pub fn message(&self) -> (s: String)
        ensures
            s@ == self.spec_message(),
    {
        match self {
            InternalError::Token(e) => {
                let mut s = String::from_str("token error: ");
                let inner = e.message();
                s.append(inner.as_str());
                s
            },
            InternalError::Parameter(e) => {
                let mut s = String::from_str("parameter resolution error: ");
                let inner = e.message();
                s.append(inner.as_str());
                s
            },
        }
    }
}

impl From<TokenError> for InternalError {
    fn from(e: TokenError) -> (r: Self) {
        InternalError::Token(e)
    }
}

impl vstd::std_specs::convert::FromSpecImpl<TokenError> for InternalError {
    open spec fn obeys_from_spec() -> bool {
        true
    }

    open spec fn from_spec(e: TokenError) -> InternalError {
        InternalError::Token(e)
    }
}

impl From<ParameterResolutionError> for InternalError {
    fn from(e: ParameterResolutionError) -> (r: Self) {
        InternalError::Parameter(e)
    }
}

impl vstd::std_specs::convert::FromSpecImpl<ParameterResolutionError> for InternalError {
    open spec fn obeys_from_spec() -> bool {
        true
    }

    open spec fn from_spec(e: ParameterResolutionError) -> InternalError {
        InternalError::Parameter(e)
    }
}

} // verus!

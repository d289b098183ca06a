//! Arguments that tokens carry, and how they are resolved.

use vstd::prelude::*;

use std::any::Any;

verus! {

/// Why the arguments of a token could not be resolved.
#[derive(Clone, Debug)]
pub enum ParameterResolutionError {
    /// args provided to token failed to validate against their specification
    ArgsValidation(String),
    /// no args should have been provided to token, and yet these were
    ArgsWereUnexpected(String),
    /// arg requested at an out of bounds index
    ArgOutOfBounds(String),
}

impl ParameterResolutionError {
    /// The text that precedes the detail in the message of each variant.
    pub open spec fn spec_prefix(self) -> Seq<char> {
        match self {
            ParameterResolutionError::ArgsValidation(_) =>
                "args provided to token failed to validate against their specification: "@,
            ParameterResolutionError::ArgsWereUnexpected(_) =>
                "no args should have been provided to token, and yet these were: "@,
            ParameterResolutionError::ArgOutOfBounds(_) =>
                "arg requested at an out of bounds index: "@,
        }
    }

    /// The detail carried by the error.
    pub open spec fn spec_detail(self) -> Seq<char> {
        match self {
            ParameterResolutionError::ArgsValidation(s) => s@,
            ParameterResolutionError::ArgsWereUnexpected(s) => s@,
            ParameterResolutionError::ArgOutOfBounds(s) => s@,
        }
    }

    /// The human-readable description of the error.
    pub open spec fn spec_message(self) -> Seq<char> {
        self.spec_prefix() + self.spec_detail()
    }

    /// Describe the error for humans.
    pub fn message(&self) -> (s: String)
        ensures
            s@ == self.spec_message(),
    {
        match self {
            ParameterResolutionError::ArgsValidation(detail) => {
                let mut s = String::from_str(
                    "args provided to token failed to validate against their specification: ",
                );
                s.append(detail.as_str());
                s
            },
            ParameterResolutionError::ArgsWereUnexpected(detail) => {
                let mut s = String::from_str(
                    "no args should have been provided to token, and yet these were: ",
                );
                s.append(detail.as_str());
                s
            },
            ParameterResolutionError::ArgOutOfBounds(detail) => {
                let mut s = String::from_str("arg requested at an out of bounds index: ");
                s.append(detail.as_str());
                s
            },
        }
    }
}

/// "Argument specification" for a token.
#[derive(Clone, Debug, PartialEq, Eq)]
pub enum ArgsSpec {
    /// No arguments means each instance of this token is indistinguishable from the others.
    NoArguments,
    /// May take some arguments sometimes.
    SomeArguments,
}

impl ArgsSpec {
    /// Check a token's arguments against their specification. No check is implemented yet:
    /// every instance is refused, with the detail "TODO: implement this method".
    pub fn validate<A>(instance: ArgsInstance<A>) -> (r: Result<(), ParameterResolutionError>)
        ensures
            r matches Err(ParameterResolutionError::ArgsValidation(detail))
                && detail@ == "TODO: implement this method"@,
    {
        let detail = String::from_str("TODO: implement this method");
        Err(ParameterResolutionError::ArgsValidation(detail))
    }
}

/// The arguments a token instance carries: none at all, or a list of boxed values.
pub enum ArgsInstance<A = Box<dyn Any>> {
    /// The token carries no arguments.
    NoArgs,
    /// The token carries these arguments.
    Args(Vec<A>),
}

impl<A> ArgsInstance<A> {
    /// Return a slice to the boxed arguments, if any.
    pub fn get_args(&self) -> (r: Result<&[A], ParameterResolutionError>)
        ensures
            match self {
                ArgsInstance::NoArgs => r matches Err(ParameterResolutionError::ArgsWereUnexpected(
                    detail,
                )) && detail@ == "TODO"@,
                ArgsInstance::Args(args) => r matches Ok(slice) && slice@ == args@,
            },
    {
        match self {
            ArgsInstance::NoArgs => Err(
                ParameterResolutionError::ArgsWereUnexpected(String::from_str("TODO")),
            ),
            ArgsInstance::Args(args) => Ok(args.as_slice()),
        }
    }

    /// Return a reference to a particular boxed argument.
    pub fn get_arg_at(&self, index: usize) -> (r: Result<&A, ParameterResolutionError>)
        ensures
            match self {
                ArgsInstance::NoArgs => r matches Err(ParameterResolutionError::ArgsWereUnexpected(
                    detail,
                )) && detail@ == "TODO"@,
                ArgsInstance::Args(args) => if index < args.len() {
                    r matches Ok(arg) && *arg == args@[index as int]
                } else {
                    r matches Err(ParameterResolutionError::ArgOutOfBounds(detail)) && detail@
                        == "TODO"@
                },
            },
    {
        let args = self.get_args()?;
        if index < args.len() {
            Ok(&args[index])
        } else {
            Err(ParameterResolutionError::ArgOutOfBounds(String::from_str("TODO")))
        }
    }
}

/// A callback to execute once a sub-parse/production has succeeded.
pub trait Resolver {
    /// E.g. an AST node.
    type Product;
    /// This will be used to generate a parse error.
    type Error;
    /// The type of each argument; `Box<dyn Any>` in general.
    type Arg;

    /// Execute this node's logic to transform its `args` into a single product.
    fn resolve(&self, args: ArgsInstance<Self::Arg>) -> Result<Self::Product, Self::Error>;
}

} // verus!

use std::any::Any;

use grammar::model::control_flow;
use grammar::model::parameters::{
    ArgsInstance, ArgsSpec, ParameterResolutionError, Resolver,
};
use grammar::model::tokens::{Registry, TokenError, TokenSpec, UniqueDescriptor};
use grammar::model::InternalError;

fn spec(id: &'static str, args_spec: ArgsSpec) -> TokenSpec {
    TokenSpec { unique_descriptor: UniqueDescriptor(id), args_spec }
}

#[test]
fn registering_a_descriptor_twice_fails() {
    let mut registry = Registry::new();
    assert!(registry.register_token_spec(spec("a", ArgsSpec::NoArguments)).is_ok());
    assert!(registry.register_token_spec(spec("b", ArgsSpec::SomeArguments)).is_ok());
    match registry.register_token_spec(spec("a", ArgsSpec::SomeArguments)) {
        Err(TokenError::TokenRegistration(UniqueDescriptor(id))) => assert_eq!(id, "a"),
        Ok(()) => panic!("a second registration must fail"),
    }
    match registry.clone().register_token_spec(spec("b", ArgsSpec::NoArguments)) {
        Err(TokenError::TokenRegistration(UniqueDescriptor(id))) => assert_eq!(id, "b"),
        Ok(()) => panic!("a clone keeps the registered descriptors"),
    }
    assert!(registry.register_token_spec(spec("c", ArgsSpec::NoArguments)).is_ok());
}

#[test]
fn token_error_message_names_the_descriptor() {
    let e = TokenError::TokenRegistration(UniqueDescriptor("ident"));
    assert_eq!(e.message(), "token @ unique descriptor: 'ident' registered twice");
    assert_eq!(UniqueDescriptor("x").describe(), "unique descriptor: 'x'");
}

struct Num(pub usize);

#[test]
fn get_args_of_no_args_is_unexpected() {
    match ArgsInstance::<Box<dyn Any>>::NoArgs.get_args() {
        Err(ParameterResolutionError::ArgsWereUnexpected(detail)) => assert_eq!(detail, "TODO"),
        _ => unreachable!(),
    }
    let args: ArgsInstance = ArgsInstance::Args(vec![Box::new(Num(0))]);
    match args.get_args() {
        Ok(args) if args.len() == 1 => (),
        _ => unreachable!(),
    }
}

#[test]
fn get_arg_at_checks_bounds() {
    let args: ArgsInstance = ArgsInstance::Args(vec![Box::new(Num(7))]);
    let first = args.get_arg_at(0).ok().unwrap();
    assert_eq!(first.as_ref().downcast_ref::<Num>().unwrap().0, 7);
    match args.get_arg_at(1) {
        Err(ParameterResolutionError::ArgOutOfBounds(detail)) => assert_eq!(detail, "TODO"),
        _ => unreachable!(),
    }
    match ArgsInstance::<u8>::NoArgs.get_arg_at(0) {
        Err(ParameterResolutionError::ArgsWereUnexpected(_)) => (),
        _ => unreachable!(),
    }
}

#[test]
fn validate_refuses_every_instance() {
    match ArgsSpec::validate(ArgsInstance::Args(vec![1u8, 2u8])) {
        Err(ParameterResolutionError::ArgsValidation(detail)) => {
            assert_eq!(detail, "TODO: implement this method")
        },
        _ => unreachable!(),
    }
    assert!(ArgsSpec::validate::<u8>(ArgsInstance::NoArgs).is_err());
}

struct Add;
impl Resolver for Add {
    type Product = Num;
    type Error = ParameterResolutionError;
    type Arg = Box<dyn Any>;
    fn resolve(&self, args: ArgsInstance) -> Result<Num, Self::Error> {
        let (a, b) = match args.get_args()? {
            [a, b] => (a, b),
            _ => unreachable!(),
        };
        let Num(a) = *a.as_ref().downcast_ref::<Num>().unwrap();
        let Num(b) = *b.as_ref().downcast_ref::<Num>().unwrap();
        Ok(Num(a + b))
    }
}

#[test]
fn resolver_adds_its_arguments() {
    let args = ArgsInstance::Args(vec![Box::new(Num(1)) as Box<dyn Any>, Box::new(Num(2))]);
    let Num(c) = Add.resolve(args).ok().unwrap();
    assert!(c == 3);
}

#[test]
fn parameter_error_messages() {
    let e = ParameterResolutionError::ArgsValidation("x".to_string());
    assert_eq!(e.message(), "args provided to token failed to validate against their specification: x");
    let e = ParameterResolutionError::ArgsWereUnexpected("y".to_string());
    assert_eq!(e.message(), "no args should have been provided to token, and yet these were: y");
    let e = ParameterResolutionError::ArgOutOfBounds("z".to_string());
    assert_eq!(e.message(), "arg requested at an out of bounds index: z");
}

#[test]
fn internal_error_wraps_and_describes() {
    let e: InternalError = TokenError::TokenRegistration(UniqueDescriptor("t")).into();
    assert!(matches!(e, InternalError::Token(TokenError::TokenRegistration(UniqueDescriptor("t")))));
    assert_eq!(e.message(), "token error: token @ unique descriptor: 't' registered twice");
    let e: InternalError = ParameterResolutionError::ArgOutOfBounds("TODO".to_string()).into();
    assert_eq!(e.message(), "parameter resolution error: arg requested at an out of bounds index: TODO");
}

struct Utf8Parser;
impl control_flow::Parser for Utf8Parser {
    type Input = u8;
    type Output = char;
}

#[test]
fn parser_names_its_input_and_output() {
    fn output_of<P: control_flow::Parser<Output = char>>(_p: &P) -> &'static str {
        "char"
    }
    assert_eq!(output_of(&Utf8Parser), "char");
}

//! A compiler for declarative test specifications.
//!
//! A specification is written in one of three small dialects: a scenario
//! test (`given`, `when`, `then`), a system test (`setup`, `call`, `expect`)
//! or a component test (`given`, `operations`). Each is read from text into
//! its syntax tree and written out as the text of a test procedure that
//! drives a simulation harness and checks the outcomes.

use crate::assertions::{generate_assertions, ASSERTIONS};
use crate::attribute::{
    config, expand_bevy_test, function_of, generate_test_helpers, parse_config, read_function,
    wrapped_statements, TEST_HELPERS,
};
use crate::builders::{
    generate_fixtures, generate_mock_input, generate_mock_world, FIXTURES, MOCK_INPUT, MOCK_WORLD,
};
use crate::component::{component_case, component_statements, ComponentTest};
use crate::emit::procedure;
use crate::error::{ErrorKind, Failure, ParseError};
use crate::lexer::{lexed, tokenize};
use crate::scenario::{
    nothing_expected, scenario, scenario_statements, BenchmarkScenario, PropertyTest, TestScenario,
};
use crate::syntax::agrees;
use crate::system::{system_case, system_statements, SystemTest};
use crate::token::Tok;
use vstd::prelude::*;
use vstd::string::*;

pub mod assertions;
pub mod attribute;
pub mod builders;
pub mod component;
pub mod emit;
pub mod error;
pub mod laws;
pub mod lexer;
pub mod scenario;
pub mod syntax;
pub mod system;
pub mod text;
pub mod time;
pub mod token;

verus! {

/// The tokens of a text, or the lexical error where it has none.
pub open spec fn tokens_of(text: Seq<char>) -> Result<Seq<Tok>, Failure> {
    match lexed(text) {
        Some(tokens) => Ok(tokens),
        None => Err(Failure { kind: ErrorKind::Lexical, path: Seq::empty() }),
    }
}

/// What a text means as a scenario test: the procedure made from the
/// scenario that its tokens are, or the first error.
pub open spec fn scenario_procedure(text: Seq<char>) -> Result<Seq<char>, Failure> {
    match tokens_of(text) {
        Err(e) => Err(e),
        Ok(tokens) => match scenario(tokens) {
            Err(e) => Err(e),
            Ok(parsed) => Ok(procedure(parsed.name, scenario_statements(parsed))),
        },
    }
}

/// What a text means as a system test: the procedure made from the system
/// test that its tokens are, or the first error.
pub open spec fn system_procedure(text: Seq<char>) -> Result<Seq<char>, Failure> {
    match tokens_of(text) {
        Err(e) => Err(e),
        Ok(tokens) => match system_case(tokens) {
            Err(e) => Err(e),
            Ok(parsed) => Ok(procedure(parsed.name, system_statements(parsed))),
        },
    }
}

/// What a text means as a component test: the procedure made from the
/// component test that its tokens are, or the first error.
pub open spec fn component_procedure(text: Seq<char>) -> Result<Seq<char>, Failure> {
    match tokens_of(text) {
        Err(e) => Err(e),
        Ok(tokens) => match component_case(tokens) {
            Err(e) => Err(e),
            Ok(parsed) => Ok(procedure(parsed.name, component_statements(parsed))),
        },
    }
}

/// What a text means as a specification without content: no procedure text
/// for a text without tokens, the first error otherwise.
pub open spec fn empty_procedure(text: Seq<char>) -> Result<Seq<char>, Failure> {
    match tokens_of(text) {
        Err(e) => Err(e),
        Ok(tokens) => match nothing_expected(tokens) {
            Err(e) => Err(e),
            Ok(_) => Ok(Seq::empty()),
        },
    }
}

/// Compiles a scenario test: from the text of its specification to the text
/// of its test procedure.
pub fn test_scenario(input: &str) -> (r: Result<String, ParseError>)
    ensures
        agrees(r, scenario_procedure(input@)),
{
    let tokens = match tokenize(input) {
        Err(e) => {
            return Err(e);
        },
        Ok(tokens) => tokens,
    };
    match TestScenario::parse(&tokens) {
        Err(e) => Err(e),
        Ok(parsed) => Ok(parsed.expand()),
    }
}

/// Compiles a system test: from the text of its specification to the text
/// of its test procedure.
pub fn test_system(input: &str) -> (r: Result<String, ParseError>)
    ensures
        agrees(r, system_procedure(input@)),
{
    let tokens = match tokenize(input) {
        Err(e) => {
            return Err(e);
        },
        Ok(tokens) => tokens,
    };
    match SystemTest::parse(&tokens) {
        Err(e) => Err(e),
        Ok(parsed) => Ok(parsed.expand()),
    }
}

/// Compiles a component test: from the text of its specification to the
/// text of its test procedure.
pub fn test_component(input: &str) -> (r: Result<String, ParseError>)
    ensures
        agrees(r, component_procedure(input@)),
{
    let tokens = match tokenize(input) {
        Err(e) => {
            return Err(e);
        },
        Ok(tokens) => tokens,
    };
    match ComponentTest::parse(&tokens) {
        Err(e) => Err(e),
        Ok(parsed) => Ok(parsed.expand()),
    }
}

/// Compiles a benchmark: its specification has no content, and neither has
/// its procedure.
pub fn benchmark_scenario(input: &str) -> (r: Result<String, ParseError>)
    ensures
        agrees(r, empty_procedure(input@)),
{
    let tokens = match tokenize(input) {
        Err(e) => {
            return Err(e);
        },
        Ok(tokens) => tokens,
    };
    match BenchmarkScenario::parse(&tokens) {
        Err(e) => Err(e),
        Ok(parsed) => Ok(parsed.expand()),
    }
}

/// Compiles a property test: its specification has no content, and neither
/// has its procedure.
pub fn property_test(input: &str) -> (r: Result<String, ParseError>)
    ensures
        agrees(r, empty_procedure(input@)),
{
    let tokens = match tokenize(input) {
        Err(e) => {
            return Err(e);
        },
        Ok(tokens) => tokens,
    };
    match PropertyTest::parse(&tokens) {
        Err(e) => Err(e),
        Ok(parsed) => Ok(parsed.expand()),
    }
}

/// What an attribute's arguments and the text of a function mean as a
/// wrapped test: the procedure made from the function and the configuration,
/// or the first error. The function is read first.
pub open spec fn wrapped_procedure(args: Seq<char>, input: Seq<char>) -> Result<Seq<char>, Failure> {
    match function_of(input) {
        None => Err(Failure { kind: ErrorKind::ExpectedFunction, path: Seq::empty() }),
        Some(function) => match tokens_of(args) {
            Err(e) => Err(e),
            Ok(tokens) => match config(tokens) {
                Err(e) => Err(e),
                Ok(options) => Ok(procedure(function.name, wrapped_statements(options, function))),
            },
        },
    }
}

/// Wraps a function as a test: from the text of the attribute's arguments
/// and the text of the function to the text of the test procedure.
pub fn bevy_test(args: &str, input: &str) -> (r: Result<String, ParseError>)
    ensures
        agrees(r, wrapped_procedure(args@, input@)),
{
    let function = match read_function(input) {
        None => {
            return Err(ParseError { kind: ErrorKind::ExpectedFunction, path: Vec::new() });
        },
        Some(function) => function,
    };
    let tokens = match tokenize(args) {
        Err(e) => {
            return Err(e);
        },
        Ok(tokens) => tokens,
    };
    match parse_config(&tokens) {
        Err(e) => Err(e),
        Ok(options) => Ok(expand_bevy_test(&options, &function)),
    }
}

/// The utilities for a test module, as source code: the builders, the
/// assertion macros and the helpers for wrapped tests, in this order.
pub fn bevy_test_utils() -> (r: String)
    ensures
        r@ == MOCK_WORLD@ + MOCK_INPUT@ + FIXTURES@ + ASSERTIONS@ + TEST_HELPERS@,
{
    let mut out = generate_mock_world();
    out.append(generate_mock_input().as_str());
    out.append(generate_fixtures().as_str());
    out.append(generate_assertions().as_str());
    out.append(generate_test_helpers().as_str());
    out
}

/// Compiling is deterministic: two results for the same text, each as the
/// dialect's meaning of the text demands, are the same procedure, character
/// for character, or the same error.
pub proof fn lemma_compilation_is_deterministic(
    meaning: Result<Seq<char>, Failure>,
    first: Result<String, ParseError>,
    second: Result<String, ParseError>,
)
    requires
        agrees(first, meaning),
        agrees(second, meaning),
    ensures
        first is Ok <==> second is Ok,
        first is Ok ==> first->Ok_0@ == second->Ok_0@,
        first is Err ==> first->Err_0.deep_view() == second->Err_0.deep_view(),
{
}

} // verus!

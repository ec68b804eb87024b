//! Component tests: `given` an initial value, a list of `operations`, each
//! with the state that the value must have after it.

use crate::emit::{procedure, wrap, wrapped, write_procedure};
use crate::error::{ErrorKind, Failure, Keyword, ParseError};
use crate::syntax::{
    after_comma, agrees, arrow_at, clause_header_at, expression_at, group, group_at, identifier,
    identifier_at, is_arrow, named_body, parse_clause_header, parse_expression, parse_named_body,
    parse_separator, separator_at, skip_comma, Expr,
};
use crate::text::{digits_of, push_decimal};
use crate::token::{Delimiter, Tok, Token};
use vstd::prelude::*;
use vstd::string::*;

verus! {

/// One operation: a method to call on the value, its arguments if it takes
/// any, and the state expected afterwards.
#[derive(Clone, PartialEq, Eq, Debug)]
pub struct Operation {
    pub method: String,
    pub args: Option<Expr>,
    pub expected_state: Expr,
}

/// The mathematical model of an [`Operation`].
pub struct Transition {
    pub method: Seq<char>,
    pub args: Option<Seq<char>>,
    pub expected_state: Seq<char>,
}

impl DeepView for Operation {
    type V = Transition;

    open spec fn deep_view(&self) -> Transition {
        Transition {
            method: self.method@,
            args: self.args.deep_view(),
            expected_state: self.expected_state.deep_view(),
        }
    }
}

/// A component test: a name, the initial value and the operations.
#[derive(Clone, PartialEq, Eq, Debug)]
pub struct ComponentTest {
    pub name: String,
    pub given: Expr,
    pub operations: Vec<Operation>,
}

/// The mathematical model of a [`ComponentTest`].
pub struct ComponentCase {
    pub name: Seq<char>,
    pub given: Seq<char>,
    pub operations: Seq<Transition>,
}

impl DeepView for ComponentTest {
    type V = ComponentCase;

    open spec fn deep_view(&self) -> ComponentCase {
        ComponentCase {
            name: self.name@,
            given: self.given.deep_view(),
            operations: self.operations.deep_view(),
        }
    }
}

/// What stands behind the method name of an operation, at place `i`: the
/// arguments, if a group in parentheses stands there, and the place after
/// them. The parentheses must hold one expression and nothing else.
pub open spec fn arguments_at(s: Seq<Tok>, i: int) -> Result<(Option<Seq<char>>, int), Failure> {
    match group_at(s, i, Delimiter::Parenthesis) {
        None => Ok((None, i)),
        Some(inner) => match expression_at(inner, 0) {
            None => Err(Failure::at(ErrorKind::ExpectedExpression, 0).inside(i)),
            Some((args, next)) => if next < inner.len() {
                Err(Failure::at(ErrorKind::UnexpectedToken, next).inside(i))
            } else {
                Ok((Some(args), i + 1))
            },
        },
    }
}

/// What the content of an `operations` list means, read from place `i` on
/// with `acc` already read. An operation is a method name, optional
/// arguments in parentheses, `=>` and the expected state; a comma stands
/// between each two operations and, optionally, behind the last.
pub open spec fn operations_from(s: Seq<Tok>, i: int, acc: Seq<Transition>) -> Result<
    Seq<Transition>,
    Failure,
>
    decreases s.len() - i,
{
    if i >= s.len() {
        Ok(acc)
    } else {
        match identifier_at(s, i) {
            None => Err(Failure::at(ErrorKind::ExpectedIdentifier, i)),
            Some(method) => match arguments_at(s, i + 1) {
                Err(e) => Err(e),
                Ok((args, k)) => if !arrow_at(s, k) {
                    Err(Failure::at(ErrorKind::ExpectedArrow, k))
                } else {
                    match expression_at(s, k + 2) {
                        None => Err(Failure::at(ErrorKind::ExpectedExpression, k + 2)),
                        Some((expected_state, next)) => match separator_at(s, next) {
                            Err(e) => Err(e),
                            Ok(after) => operations_from(
                                s,
                                after,
                                acc.push(Transition { method, args, expected_state }),
                            ),
                        },
                    }
                },
            },
        }
    }
}

/// What the content of an `operations` list means.
pub open spec fn operations(s: Seq<Tok>) -> Result<Seq<Transition>, Failure> {
    operations_from(s, 0, Seq::empty())
}

fn parse_arguments(tokens: &Vec<Token>, i: usize) -> (r: Result<(Option<Expr>, usize), ParseError>)
    ensures
        match r {
            Ok((args, next)) => arguments_at(tokens.deep_view(), i as int) == Ok::<
                (Option<Seq<char>>, int),
                Failure,
            >((args.deep_view(), next as int)) && i <= next && (i <= tokens.len() ==> next
                <= tokens.len()),
            Err(e) => arguments_at(tokens.deep_view(), i as int) == Err::<
                (Option<Seq<char>>, int),
                Failure,
            >(e.deep_view()),
        },
{
    match group(tokens, i, Delimiter::Parenthesis) {
        None => Ok((None, i)),
        Some(inner) => match parse_expression(inner, 0) {
            None => Err(ParseError::at(ErrorKind::ExpectedExpression, 0).inside(i)),
            Some((args, next)) => if next < inner.len() {
                Err(ParseError::at(ErrorKind::UnexpectedToken, next).inside(i))
            } else {
                assert(tokens.deep_view().len() == tokens.len());
                Ok((Some(args), i + 1))
            },
        },
    }
}

/// Reads the content of an `operations` list.
pub fn parse_operations(tokens: &Vec<Token>) -> (r: Result<Vec<Operation>, ParseError>)
    ensures
        agrees(r, operations(tokens.deep_view())),
{
    let mut list: Vec<Operation> = Vec::new();
    let mut i: usize = 0;
    assert(list.deep_view() =~= Seq::<Transition>::empty());
    while i < tokens.len()
        invariant
            i <= tokens.len(),
            operations(tokens.deep_view()) == operations_from(
                tokens.deep_view(),
                i as int,
                list.deep_view(),
            ),
        decreases tokens.len() - i,
    {
        let method = match identifier(tokens, i) {
            None => {
                return Err(ParseError::at(ErrorKind::ExpectedIdentifier, i));
            },
            Some(name) => name.clone(),
        };
        let (args, k) = match parse_arguments(tokens, i + 1) {
            Err(e) => {
                return Err(e);
            },
            Ok(found) => found,
        };
        if !is_arrow(tokens, k) {
            return Err(ParseError::at(ErrorKind::ExpectedArrow, k));
        }
        match parse_expression(tokens, k + 2) {
            None => {
                return Err(ParseError::at(ErrorKind::ExpectedExpression, k + 2));
            },
            Some((expected_state, next)) => {
                let after = match parse_separator(tokens, next) {
                    Err(e) => {
                        return Err(e);
                    },
                    Ok(after) => after,
                };
                let ghost before = list.deep_view();
                let operation = Operation { method, args, expected_state };
                list.push(operation);
                assert(list.deep_view() =~= before.push(operation.deep_view()));
                i = after;
            },
        }
    }
    Ok(list)
}

/// What the body of a component test named `name` means: `given`, a colon
/// and the initial value; an optional comma; `operations`, a colon and the
/// bracketed list of operations; and nothing behind it. An error inside the
/// list is located from the body.
pub open spec fn component_body(name: Seq<char>, s: Seq<Tok>) -> Result<ComponentCase, Failure> {
    match clause_header_at(s, 0, Keyword::Given) {
        Err(e) => Err(e),
        Ok(_) => match expression_at(s, 2) {
            None => Err(Failure::at(ErrorKind::ExpectedExpression, 2)),
            Some((given, next)) => {
                let i = after_comma(s, next);
                match clause_header_at(s, i, Keyword::Operations) {
                    Err(e) => Err(e),
                    Ok(_) => match group_at(s, i + 2, Delimiter::Bracket) {
                        None => Err(Failure::at(ErrorKind::ExpectedBrackets, i + 2)),
                        Some(inner) => match operations(inner) {
                            Err(e) => Err(e.inside(i + 2)),
                            Ok(list) => if s.len() > i + 3 {
                                Err(Failure::at(ErrorKind::UnexpectedToken, i + 3))
                            } else {
                                Ok(ComponentCase { name, given, operations: list })
                            },
                        },
                    },
                }
            },
        },
    }
}

/// What a token sequence means as a component test: a name and a braced
/// body, and nothing behind them.
pub open spec fn component_case(s: Seq<Tok>) -> Result<ComponentCase, Failure> {
    match named_body(s) {
        Err(e) => Err(e),
        Ok((name, body)) => match component_body(name, body) {
            Err(e) => Err(e.inside(1)),
            Ok(parsed) => if s.len() > 2 {
                Err(Failure::at(ErrorKind::UnexpectedToken, 2))
            } else {
                Ok(parsed)
            },
        },
    }
}

fn parse_component_body(name: String, tokens: &Vec<Token>) -> (r: Result<ComponentTest, ParseError>)
    ensures
        agrees(r, component_body(name@, tokens.deep_view())),
{
    match parse_clause_header(tokens, 0, Keyword::Given) {
        Err(e) => {
            return Err(e);
        },
        Ok(_) => {},
    }
    let (given, next) = match parse_expression(tokens, 2) {
        None => {
            return Err(ParseError::at(ErrorKind::ExpectedExpression, 2));
        },
        Some(found) => found,
    };
    let i = skip_comma(tokens, next);
    match parse_clause_header(tokens, i, Keyword::Operations) {
        Err(e) => {
            return Err(e);
        },
        Ok(_) => {},
    }
    let inner = match group(tokens, i + 2, Delimiter::Bracket) {
        None => {
            return Err(ParseError::at(ErrorKind::ExpectedBrackets, i + 2));
        },
        Some(inner) => inner,
    };
    let operations = match parse_operations(inner) {
        Err(e) => {
            return Err(e.inside(i + 2));
        },
        Ok(list) => list,
    };
    if tokens.len() > i + 3 {
        return Err(ParseError::at(ErrorKind::UnexpectedToken, i + 3));
    }
    Ok(ComponentTest { name, given, operations })
}

/// The statement that calls the method of an operation on the value.
pub open spec fn call_statement(operation: Transition) -> Seq<char> {
    match operation.args {
        Some(args) => "component."@ + operation.method + "("@ + args + ");"@,
        None => wrapped("component."@, operation.method, "();"@),
    }
}

/// The statement that compares the value with the expected state; the
/// failure message names the operation by `number`, counted from one.
pub open spec fn state_statement(operation: Transition, number: nat) -> Seq<char> {
    "assert_eq!(component, "@ + operation.expected_state
        + ", \"After operation {}: component state mismatch\", "@ + digits_of(number) + ");"@
}

/// The statements of the first `n` operations: for each, the call and then
/// the comparison.
pub open spec fn step_statements(operations: Seq<Transition>, n: nat) -> Seq<Seq<char>>
    decreases n,
{
    if n == 0 || n > operations.len() {
        Seq::empty()
    } else {
        step_statements(operations, (n - 1) as nat) + seq![
            call_statement(operations[n - 1]),
            state_statement(operations[n - 1], n),
        ]
    }
}

/// The statements of the procedure of a component test: the value is made,
/// then each operation is applied and checked, in the order of the list. No
/// harness is made.
pub open spec fn component_statements(case: ComponentCase) -> Seq<Seq<char>> {
    seq!["use bevy::prelude::*;"@, wrapped("let mut component = "@, case.given, ";"@)]
        + step_statements(case.operations, case.operations.len())
}

fn call_text(operation: &Operation) -> (r: String)
    ensures
        r@ == call_statement(operation.deep_view()),
{
    match &operation.args {
        Some(args) => {
            let mut statement = String::from_str("component.");
            statement.append(operation.method.as_str());
            statement.append("(");
            statement.append(args.text.as_str());
            statement.append(");");
            statement
        },
        None => wrap("component.", operation.method.as_str(), "();"),
    }
}

fn state_text(operation: &Operation, number: usize) -> (r: String)
    ensures
        r@ == state_statement(operation.deep_view(), number as nat),
{
    let mut statement = String::from_str("assert_eq!(component, ");
    statement.append(operation.expected_state.text.as_str());
    statement.append(", \"After operation {}: component state mismatch\", ");
    push_decimal(&mut statement, number as u128);
    statement.append(");");
    statement
}

impl ComponentTest {
    /// Parses a component test.
    ///
    /// Succeeds exactly on the token sequences that [`component_case`] gives
    /// a meaning, with that meaning; fails otherwise, with the first error in
    /// reading order.
    pub fn parse(tokens: &Vec<Token>) -> (r: Result<ComponentTest, ParseError>)
        ensures
            agrees(r, component_case(tokens.deep_view())),
    {
        match parse_named_body(tokens) {
            Err(e) => Err(e),
            Ok((name, body)) => match parse_component_body(name.clone(), body) {
                Err(e) => Err(e.inside(1)),
                Ok(parsed) => if tokens.len() > 2 {
                    Err(ParseError::at(ErrorKind::UnexpectedToken, 2))
                } else {
                    Ok(parsed)
                },
            },
        }
    }

    /// The statements that apply and check the operations.
    pub fn generate_test_steps(&self) -> (r: Vec<String>)
        ensures
            r.deep_view() == step_statements(
                self.operations.deep_view(),
                self.operations.len() as nat,
            ),
    {
        let mut out: Vec<String> = Vec::new();
        let ghost all = self.operations.deep_view();
        let mut i: usize = 0;
        assert(out.deep_view() =~= step_statements(all, 0));
        while i < self.operations.len()
            invariant
                i <= self.operations.len(),
                all == self.operations.deep_view(),
                out.deep_view() == step_statements(all, i as nat),
            decreases self.operations.len() - i,
        {
            let ghost so_far = out.deep_view();
            let operation = &self.operations[i];
            assert(all[i as int] == operation.deep_view());
            let call = call_text(operation);
            let check = state_text(operation, i + 1);
            out.push(call);
            out.push(check);
            assert(out.deep_view() =~= so_far + seq![call@, check@]);
            i += 1;
        }
        out
    }

    /// The statements of the test procedure.
    pub fn statements(&self) -> (r: Vec<String>)
        ensures
            r.deep_view() == component_statements(self.deep_view()),
    {
        let mut out: Vec<String> = Vec::new();
        out.push(String::from_str("use bevy::prelude::*;"));
        out.push(wrap("let mut component = ", self.given.text.as_str(), ";"));
        let mut steps = self.generate_test_steps();
        let ghost a = out.deep_view();
        let ghost b = steps.deep_view();
        out.append(&mut steps);
        assert(out.deep_view() =~= a + b);
        assert(a =~= seq![
            "use bevy::prelude::*;"@,
            wrapped("let mut component = "@, self.given.deep_view(), ";"@),
        ]);
        out
    }

    /// The generated test procedure: a test function named after the test,
    /// whose body is the statements of [`component_statements`].
    pub fn expand(&self) -> (r: String)
        ensures
            r@ == procedure(self.name@, component_statements(self.deep_view())),
    {
        let statements = self.statements();
        write_procedure(self.name.as_str(), &statements)
    }
}

} // verus!

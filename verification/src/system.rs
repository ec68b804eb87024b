//! System tests: `setup` a small world, `call` one system for one tick,
//! `expect` what must hold afterwards.

use crate::emit::{
    assertion_statement, assertion_text, harness_statements, procedure, push_harness, push_spawns,
    push_wrapped_each, spawn_statements, wrap, wrapped, wrapped_each, write_procedure, Binding,
    EntityBinding,
};
use crate::error::{ErrorKind, Failure, Keyword, ParseError};
use crate::syntax::{
    after_comma, agrees, clause_at, clause_header_at, expression_at, expression_list_at,
    expressions, extend_expressions, identifier, identifier_at, is_punct, named_body, parse_clause,
    parse_clause_header, parse_expression, parse_expression_list, parse_expressions,
    parse_named_body, parse_separator, punct_at, separator_at, skip_comma, Expr,
};
use crate::text::same_text;
use crate::token::{Tok, Token};
use vstd::prelude::*;
use vstd::string::*;

verus! {

/// An entity of the setup, under the name that the author gives it.
#[derive(Clone, PartialEq, Eq, Debug)]
pub struct EntitySetup {
    pub var_name: String,
    pub components: Expr,
}

/// The mathematical model of an [`EntitySetup`].
pub struct NamedEntity {
    pub var_name: Seq<char>,
    pub components: Seq<char>,
}

impl DeepView for EntitySetup {
    type V = NamedEntity;

    open spec fn deep_view(&self) -> NamedEntity {
        NamedEntity { var_name: self.var_name@, components: self.components.deep_view() }
    }
}

/// The world before the call: resources, named entities and event types.
#[derive(Clone, PartialEq, Eq, Debug)]
pub struct SetupBlock {
    pub resources: Vec<Expr>,
    pub entities: Vec<EntitySetup>,
    pub events: Vec<Expr>,
}

/// The mathematical model of a [`SetupBlock`].
pub struct Setup {
    pub resources: Seq<Seq<char>>,
    pub entities: Seq<NamedEntity>,
    pub events: Seq<Seq<char>>,
}

impl DeepView for SetupBlock {
    type V = Setup;

    open spec fn deep_view(&self) -> Setup {
        Setup {
            resources: self.resources.deep_view(),
            entities: self.entities.deep_view(),
            events: self.events.deep_view(),
        }
    }
}

/// The system under test and, optionally, a second callable into which its
/// output is piped.
#[derive(Clone, PartialEq, Eq, Debug)]
pub struct SystemCall {
    pub system: Expr,
    pub params: Option<Expr>,
}

/// The mathematical model of a [`SystemCall`].
pub struct Invocation {
    pub system: Seq<char>,
    pub params: Option<Seq<char>>,
}

impl DeepView for SystemCall {
    type V = Invocation;

    open spec fn deep_view(&self) -> Invocation {
        Invocation { system: self.system.deep_view(), params: self.params.deep_view() }
    }
}

/// The boolean expressions that must hold after the call.
#[derive(Clone, PartialEq, Eq, Debug)]
pub struct ExpectBlock {
    pub assertions: Vec<Expr>,
}

/// The mathematical model of an [`ExpectBlock`].
pub struct Expectations {
    pub assertions: Seq<Seq<char>>,
}

impl DeepView for ExpectBlock {
    type V = Expectations;

    open spec fn deep_view(&self) -> Expectations {
        Expectations { assertions: self.assertions.deep_view() }
    }
}

/// A system test: a name and the three clauses.
#[derive(Clone, PartialEq, Eq, Debug)]
pub struct SystemTest {
    pub name: String,
    pub setup: SetupBlock,
    pub call: SystemCall,
    pub expect: ExpectBlock,
}

/// The mathematical model of a [`SystemTest`].
pub struct SystemCase {
    pub name: Seq<char>,
    pub setup: Setup,
    pub call: Invocation,
    pub expect: Expectations,
}

impl DeepView for SystemTest {
    type V = SystemCase;

    open spec fn deep_view(&self) -> SystemCase {
        SystemCase {
            name: self.name@,
            setup: self.setup.deep_view(),
            call: self.call.deep_view(),
            expect: self.expect.deep_view(),
        }
    }
}

/// The `setup` clause that names nothing.
pub open spec fn empty_setup() -> Setup {
    Setup { resources: Seq::empty(), entities: Seq::empty(), events: Seq::empty() }
}

/// What the content of a `setup` clause means, read from place `i` on with
/// `acc` already read. An entry is a name, a colon and a value: after
/// `resources` and after `events` a bracketed list of expressions, after any
/// other identifier the components of an entity of that name. A comma
/// stands between each two entries and, optionally, behind the last.
pub open spec fn setup_from(s: Seq<Tok>, i: int, acc: Setup) -> Result<Setup, Failure>
    decreases s.len() - i,
{
    if i >= s.len() {
        Ok(acc)
    } else {
        match identifier_at(s, i) {
            None => Err(Failure::at(ErrorKind::ExpectedIdentifier, i)),
            Some(name) => if !punct_at(s, i + 1, ':') {
                Err(Failure::at(ErrorKind::ExpectedColon, i + 1))
            } else if name == "resources"@ {
                match expression_list_at(s, i + 2) {
                    Err(e) => Err(e),
                    Ok(list) => match separator_at(s, i + 3) {
                        Err(e) => Err(e),
                        Ok(after) => setup_from(
                            s,
                            after,
                            Setup {
                                resources: acc.resources + list,
                                entities: acc.entities,
                                events: acc.events,
                            },
                        ),
                    },
                }
            } else if name == "events"@ {
                match expression_list_at(s, i + 2) {
                    Err(e) => Err(e),
                    Ok(list) => match separator_at(s, i + 3) {
                        Err(e) => Err(e),
                        Ok(after) => setup_from(
                            s,
                            after,
                            Setup {
                                resources: acc.resources,
                                entities: acc.entities,
                                events: acc.events + list,
                            },
                        ),
                    },
                }
            } else {
                match expression_at(s, i + 2) {
                    None => Err(Failure::at(ErrorKind::ExpectedExpression, i + 2)),
                    Some((components, next)) => match separator_at(s, next) {
                        Err(e) => Err(e),
                        Ok(after) => setup_from(
                            s,
                            after,
                            Setup {
                                resources: acc.resources,
                                entities: acc.entities.push(
                                    NamedEntity { var_name: name, components },
                                ),
                                events: acc.events,
                            },
                        ),
                    },
                }
            },
        }
    }
}

/// What the content of a `setup` clause means.
pub open spec fn setup_clause(s: Seq<Tok>) -> Result<Setup, Failure> {
    setup_from(s, 0, empty_setup())
}

/// Reads the content of a `setup` clause.
pub fn parse_setup_block(tokens: &Vec<Token>) -> (r: Result<SetupBlock, ParseError>)
    ensures
        agrees(r, setup_clause(tokens.deep_view())),
{
    let mut setup = SetupBlock { resources: Vec::new(), entities: Vec::new(), events: Vec::new() };
    let mut i: usize = 0;
    assert(setup.deep_view().resources =~= Seq::empty());
    assert(setup.deep_view().entities =~= Seq::empty());
    assert(setup.deep_view().events =~= Seq::empty());
    while i < tokens.len()
        invariant
            i <= tokens.len(),
            setup_clause(tokens.deep_view()) == setup_from(
                tokens.deep_view(),
                i as int,
                setup.deep_view(),
            ),
        decreases tokens.len() - i,
    {
        match identifier(tokens, i) {
            None => {
                return Err(ParseError::at(ErrorKind::ExpectedIdentifier, i));
            },
            Some(name) => {
                if !is_punct(tokens, i + 1, ':') {
                    return Err(ParseError::at(ErrorKind::ExpectedColon, i + 1));
                }
                if same_text(name.as_str(), "resources") {
                    match parse_expression_list(tokens, i + 2) {
                        Err(e) => {
                            return Err(e);
                        },
                        Ok(list) => extend_expressions(&mut setup.resources, list),
                    }
                    i = match parse_separator(tokens, i + 3) {
                        Err(e) => {
                            return Err(e);
                        },
                        Ok(after) => after,
                    };
                } else if same_text(name.as_str(), "events") {
                    match parse_expression_list(tokens, i + 2) {
                        Err(e) => {
                            return Err(e);
                        },
                        Ok(list) => extend_expressions(&mut setup.events, list),
                    }
                    i = match parse_separator(tokens, i + 3) {
                        Err(e) => {
                            return Err(e);
                        },
                        Ok(after) => after,
                    };
                } else {
                    match parse_expression(tokens, i + 2) {
                        None => {
                            return Err(ParseError::at(ErrorKind::ExpectedExpression, i + 2));
                        },
                        Some((components, next)) => {
                            let ghost before = setup.entities.deep_view();
                            let entity = EntitySetup { var_name: name.clone(), components };
                            setup.entities.push(entity);
                            assert(setup.entities.deep_view() =~= before.push(entity.deep_view()));
                            i = match parse_separator(tokens, next) {
                                Err(e) => {
                                    return Err(e);
                                },
                                Ok(after) => after,
                            };
                        },
                    }
                }
            },
        }
    }
    Ok(setup)
}

/// What stands behind the system of a `call` clause, from place `j` on: the
/// second callable, if there is one, and the place after it. A comma opens
/// the second callable, unless the input ends behind the comma or the
/// `expect` clause opens there.
pub open spec fn pipe_at(s: Seq<Tok>, j: int) -> Result<(Option<Seq<char>>, int), Failure> {
    if !punct_at(s, j, ',') {
        Ok((None, j))
    } else if j + 1 >= s.len() || clause_header_at(s, j + 1, Keyword::Expect) is Ok {
        Ok((None, j + 1))
    } else {
        match expression_at(s, j + 1) {
            None => Err(Failure::at(ErrorKind::ExpectedExpression, j + 1)),
            Some((params, next)) => Ok((Some(params), next)),
        }
    }
}

/// What the `call` clause that opens at place `i` means: the keyword, a
/// colon, the system as an expression and what [`pipe_at`] finds behind it;
/// with the place after the clause.
pub open spec fn call_at(s: Seq<Tok>, i: int) -> Result<(Invocation, int), Failure> {
    match clause_header_at(s, i, Keyword::Call) {
        Err(e) => Err(e),
        Ok(_) => match expression_at(s, i + 2) {
            None => Err(Failure::at(ErrorKind::ExpectedExpression, i + 2)),
            Some((system, j)) => match pipe_at(s, j) {
                Err(e) => Err(e),
                Ok((params, next)) => Ok((Invocation { system, params }, next)),
            },
        },
    }
}

/// Reads the `call` clause that opens at place `i`.
pub fn parse_system_call(tokens: &Vec<Token>, i: usize) -> (r: Result<
    (SystemCall, usize),
    ParseError,
>)
    ensures
        match r {
            Ok((call, next)) => call_at(tokens.deep_view(), i as int) == Ok::<
                (Invocation, int),
                Failure,
            >((call.deep_view(), next as int)) && next <= tokens.len(),
            Err(e) => call_at(tokens.deep_view(), i as int) == Err::<(Invocation, int), Failure>(
                e.deep_view(),
            ),
        },
{
    match parse_clause_header(tokens, i, Keyword::Call) {
        Err(e) => {
            return Err(e);
        },
        Ok(_) => {},
    }
    let (system, j) = match parse_expression(tokens, i + 2) {
        None => {
            return Err(ParseError::at(ErrorKind::ExpectedExpression, i + 2));
        },
        Some(found) => found,
    };
    if !is_punct(tokens, j, ',') {
        return Ok((SystemCall { system, params: None }, j));
    }
    if j + 1 >= tokens.len() {
        return Ok((SystemCall { system, params: None }, j + 1));
    }
    match parse_clause_header(tokens, j + 1, Keyword::Expect) {
        Ok(_) => {
            return Ok((SystemCall { system, params: None }, j + 1));
        },
        Err(_) => {},
    }
    match parse_expression(tokens, j + 1) {
        None => Err(ParseError::at(ErrorKind::ExpectedExpression, j + 1)),
        Some((params, next)) => Ok((SystemCall { system, params: Some(params) }, next)),
    }
}

/// What the body of a system test named `name` means: the clauses `setup`,
/// `call` and `expect`, each once and in this order, with an optional comma
/// after the first and after the second, and nothing behind the third. The
/// `setup` and the `expect` clause are braced groups; an error inside one is
/// located from the body.
pub open spec fn system_body(name: Seq<char>, s: Seq<Tok>) -> Result<SystemCase, Failure> {
    match clause_at(s, 0, Keyword::Setup) {
        Err(e) => Err(e),
        Ok(setup_tokens) => match setup_clause(setup_tokens) {
            Err(e) => Err(e.inside(2)),
            Ok(setup) => match call_at(s, after_comma(s, 3)) {
                Err(e) => Err(e),
                Ok((call, next)) => {
                    let j = after_comma(s, next);
                    match clause_at(s, j, Keyword::Expect) {
                        Err(e) => Err(e),
                        Ok(expect_tokens) => match expressions(expect_tokens) {
                            Err(e) => Err(e.inside(j + 2)),
                            Ok(assertions) => if s.len() > j + 3 {
                                Err(Failure::at(ErrorKind::UnexpectedToken, j + 3))
                            } else {
                                Ok(
                                    SystemCase {
                                        name,
                                        setup,
                                        call,
                                        expect: Expectations { assertions },
                                    },
                                )
                            },
                        },
                    }
                },
            },
        },
    }
}

/// What a token sequence means as a system test: a name and a braced body,
/// and nothing behind them.
pub open spec fn system_case(s: Seq<Tok>) -> Result<SystemCase, Failure> {
    match named_body(s) {
        Err(e) => Err(e),
        Ok((name, body)) => match system_body(name, body) {
            Err(e) => Err(e.inside(1)),
            Ok(parsed) => if s.len() > 2 {
                Err(Failure::at(ErrorKind::UnexpectedToken, 2))
            } else {
                Ok(parsed)
            },
        },
    }
}

fn parse_system_body(name: String, tokens: &Vec<Token>) -> (r: Result<SystemTest, ParseError>)
    ensures
        agrees(r, system_body(name@, tokens.deep_view())),
{
    let setup = match parse_clause(tokens, 0, Keyword::Setup) {
        Err(e) => {
            return Err(e);
        },
        Ok(inner) => match parse_setup_block(inner) {
            Err(e) => {
                return Err(e.inside(2));
            },
            Ok(setup) => setup,
        },
    };
    let (call, next) = match parse_system_call(tokens, skip_comma(tokens, 3)) {
        Err(e) => {
            return Err(e);
        },
        Ok(found) => found,
    };
    let j = skip_comma(tokens, next);
    let assertions = match parse_clause(tokens, j, Keyword::Expect) {
        Err(e) => {
            return Err(e);
        },
        Ok(inner) => match parse_expressions(inner) {
            Err(e) => {
                return Err(e.inside(j + 2));
            },
            Ok(assertions) => assertions,
        },
    };
    if tokens.len() > j + 3 {
        return Err(ParseError::at(ErrorKind::UnexpectedToken, j + 3));
    }
    Ok(SystemTest { name, setup, call, expect: ExpectBlock { assertions } })
}

/// The bindings of the named entities: each under its own name, in the order
/// of the setup.
pub open spec fn named_bindings(entities: Seq<NamedEntity>) -> Seq<Binding> {
    Seq::new(
        entities.len(),
        |i: int| Binding { handle: entities[i].var_name, construction: entities[i].components },
    )
}

/// The statements that set up the world: each resource is inserted, then
/// each event type is registered, then each entity is spawned and bound to
/// its name; within each kind, in the order of the specification.
pub open spec fn setup_statements(setup: Setup) -> Seq<Seq<char>> {
    wrapped_each("app.insert_resource("@, setup.resources, ");"@) + wrapped_each(
        "app.add_event::<"@,
        setup.events,
        ">();"@,
    ) + spawn_statements(named_bindings(setup.entities))
}

/// The statement that registers the system under test, piped into the second
/// callable where there is one.
pub open spec fn call_statement(call: Invocation) -> Seq<char> {
    match call.params {
        None => wrapped("app.add_systems(Update, "@, call.system, ");"@),
        Some(params) => "app.add_systems(Update, "@ + call.system + ".pipe("@ + params + "));"@,
    }
}

/// The statements that check the expectations, in their order.
pub open spec fn expect_statements(expect: Expectations) -> Seq<Seq<char>> {
    Seq::new(expect.assertions.len(), |i: int| assertion_statement(expect.assertions[i]))
}

/// The statements of the procedure of a system test: a fresh harness, the
/// setup, the system, exactly one tick, the expectations.
pub open spec fn system_statements(case: SystemCase) -> Seq<Seq<char>> {
    harness_statements() + setup_statements(case.setup) + seq![
        call_statement(case.call),
        "app.update();"@,
    ] + expect_statements(case.expect)
}

fn bind_named(entities: &Vec<EntitySetup>) -> (r: Vec<EntityBinding>)
    ensures
        r.deep_view() == named_bindings(entities.deep_view()),
{
    let mut bound: Vec<EntityBinding> = Vec::new();
    let ghost all = named_bindings(entities.deep_view());
    let mut i: usize = 0;
    assert(bound.deep_view() =~= all.take(0));
    while i < entities.len()
        invariant
            i <= entities.len(),
            all == named_bindings(entities.deep_view()),
            bound.deep_view() == all.take(i as int),
        decreases entities.len() - i,
    {
        let ghost so_far = bound.deep_view();
        let binding = EntityBinding {
            handle: entities[i].var_name.clone(),
            construction: entities[i].components.text.clone(),
        };
        assert(entities.deep_view()[i as int] == entities@[i as int].deep_view());
        bound.push(binding);
        assert(bound.deep_view() =~= so_far.push(binding.deep_view()));
        assert(bound.deep_view() =~= all.take(i + 1));
        i += 1;
    }
    assert(all.take(entities.len() as int) =~= all);
    bound
}

impl SystemTest {
    /// Parses a system test.
    ///
    /// Succeeds exactly on the token sequences that [`system_case`] gives a
    /// meaning, with that meaning; fails otherwise, with the first error in
    /// reading order.
    pub fn parse(tokens: &Vec<Token>) -> (r: Result<SystemTest, ParseError>)
        ensures
            agrees(r, system_case(tokens.deep_view())),
    {
        match parse_named_body(tokens) {
            Err(e) => Err(e),
            Ok((name, body)) => match parse_system_body(name.clone(), body) {
                Err(e) => Err(e.inside(1)),
                Ok(parsed) => if tokens.len() > 2 {
                    Err(ParseError::at(ErrorKind::UnexpectedToken, 2))
                } else {
                    Ok(parsed)
                },
            },
        }
    }

    /// The statements that set up the world.
    pub fn generate_setup(&self) -> (r: Vec<String>)
        ensures
            r.deep_view() == setup_statements(self.setup.deep_view()),
    {
        let mut out: Vec<String> = Vec::new();
        push_wrapped_each(&mut out, "app.insert_resource(", &self.setup.resources, ");");
        push_wrapped_each(&mut out, "app.add_event::<", &self.setup.events, ">();");
        let bound = bind_named(&self.setup.entities);
        push_spawns(&mut out, &bound);
        assert(out.deep_view() =~= setup_statements(self.setup.deep_view()));
        out
    }

    /// The statement that registers the system under test.
    pub fn generate_system_call(&self) -> (r: String)
        ensures
            r@ == call_statement(self.call.deep_view()),
    {
        match &self.call.params {
            None => wrap("app.add_systems(Update, ", self.call.system.text.as_str(), ");"),
            Some(params) => {
                let mut statement = String::from_str("app.add_systems(Update, ");
                statement.append(self.call.system.text.as_str());
                statement.append(".pipe(");
                statement.append(params.text.as_str());
                statement.append("));");
                statement
            },
        }
    }

    /// The statements that check the expectations.
    pub fn generate_assertions(&self) -> (r: Vec<String>)
        ensures
            r.deep_view() == expect_statements(self.expect.deep_view()),
    {
        let mut out: Vec<String> = Vec::new();
        let ghost all = expect_statements(self.expect.deep_view());
        let mut i: usize = 0;
        assert(out.deep_view() =~= all.take(0));
        while i < self.expect.assertions.len()
            invariant
                i <= self.expect.assertions.len(),
                all == expect_statements(self.expect.deep_view()),
                out.deep_view() == all.take(i as int),
            decreases self.expect.assertions.len() - i,
        {
            let ghost so_far = out.deep_view();
            let statement = assertion_text(&self.expect.assertions[i]);
            out.push(statement);
            assert(out.deep_view() =~= so_far.push(statement@));
            assert(out.deep_view() =~= all.take(i + 1));
            i += 1;
        }
        assert(all.take(self.expect.assertions.len() as int) =~= all);
        out
    }

    /// The statements of the test procedure.
    pub fn statements(&self) -> (r: Vec<String>)
        ensures
            r.deep_view() == system_statements(self.deep_view()),
    {
        let mut out: Vec<String> = Vec::new();
        push_harness(&mut out);
        let mut setup = self.generate_setup();
        let mut assertions = self.generate_assertions();
        let call = self.generate_system_call();
        let ghost a = out.deep_view();
        let ghost b = setup.deep_view();
        let ghost d = assertions.deep_view();
        out.append(&mut setup);
        assert(out.deep_view() =~= a + b);
        out.push(call);
        out.push(String::from_str("app.update();"));
        assert(out.deep_view() =~= a + b + seq![call@, "app.update();"@]);
        out.append(&mut assertions);
        assert(out.deep_view() =~= a + b + seq![call@, "app.update();"@] + d);
        assert(a =~= harness_statements());
        out
    }

    /// The generated test procedure: a test function named after the test,
    /// whose body is the statements of [`system_statements`].
    pub fn expand(&self) -> (r: String)
        ensures
            r@ == procedure(self.name@, system_statements(self.deep_view())),
    {
        let statements = self.statements();
        write_procedure(self.name.as_str(), &statements)
    }
}

} // verus!

//! Scenario tests: `given` an initial state, `when` a sequence of stimuli,
//! `then` the expected outcomes.

use crate::error::{ErrorKind, Failure, Keyword, ParseError};
use crate::syntax::{
    after_comma, agrees, clause_at, expression_at, expression_list_at, extend_expressions, group,
    group_at, identifier, identifier_at, identifiers, is_punct, is_word, named_body, parse_clause,
    parse_expression, parse_expression_list, parse_identifiers, parse_named_body, parse_separator,
    punct_at, separator_at, skip_comma, word_at, Expr,
};
use crate::emit::{
    assertion_statement, assertion_text, harness_statements, procedure, push_harness, push_spawns,
    push_wrapped_each, spawn_statements, wrap, wrapped, wrapped_each, write_procedure, Binding,
    EntityBinding,
};
use crate::text::{digits_of, lemma_digits_distinct, push_decimal, same_text};
use crate::time::{method_call_of, parse_time_advance, time_advance, TimeAdvance};
use crate::token::{Delimiter, Tok, Token};
use vstd::prelude::*;
use vstd::string::*;

verus! {

/// One field of an entity and the expression that gives its value.
#[derive(Clone, PartialEq, Eq, Debug)]
pub struct FieldInit {
    pub name: String,
    pub value: Expr,
}

/// The mathematical model of a [`FieldInit`].
pub struct Field {
    pub name: Seq<char>,
    pub value: Seq<char>,
}

impl DeepView for FieldInit {
    type V = Field;

    open spec fn deep_view(&self) -> Field {
        Field { name: self.name@, value: self.value.deep_view() }
    }
}

/// An entity of the initial state: the name of its type and the fields that
/// the specification sets, in the order in which it names them.
#[derive(Clone, PartialEq, Eq, Debug)]
pub struct EntityDef {
    pub type_tag: String,
    pub fields: Vec<FieldInit>,
}

/// The mathematical model of an [`EntityDef`].
pub struct Entity {
    pub type_tag: Seq<char>,
    pub fields: Seq<Field>,
}

impl DeepView for EntityDef {
    type V = Entity;

    open spec fn deep_view(&self) -> Entity {
        Entity { type_tag: self.type_tag@, fields: self.fields.deep_view() }
    }
}

/// The initial state: resources to insert, event types to register, systems
/// to run each tick, and entities to spawn.
#[derive(Clone, PartialEq, Eq, Debug)]
pub struct GivenClause {
    pub resources: Vec<Expr>,
    pub events: Vec<Expr>,
    pub systems: Vec<Expr>,
    pub entities: Vec<EntityDef>,
}

/// The mathematical model of a [`GivenClause`].
pub struct Given {
    pub resources: Seq<Seq<char>>,
    pub events: Seq<Seq<char>>,
    pub systems: Seq<Seq<char>>,
    pub entities: Seq<Entity>,
}

impl DeepView for GivenClause {
    type V = Given;

    open spec fn deep_view(&self) -> Given {
        Given {
            resources: self.resources.deep_view(),
            events: self.events.deep_view(),
            systems: self.systems.deep_view(),
            entities: self.entities.deep_view(),
        }
    }
}

/// One stimulus.
#[derive(Clone, PartialEq, Eq, Debug)]
pub enum Action {
    /// An event value to send.
    Event(Expr),
    /// A span of time to let pass.
    Advance(TimeAdvance),
    /// An input event value to send.
    Input(Expr),
}

/// The mathematical model of an [`Action`].
pub enum Step {
    Event(Seq<char>),
    Advance(TimeAdvance),
    Input(Seq<char>),
}

impl DeepView for Action {
    type V = Step;

    open spec fn deep_view(&self) -> Step {
        match self {
            Action::Event(e) => Step::Event(e.deep_view()),
            Action::Advance(t) => Step::Advance(*t),
            Action::Input(e) => Step::Input(e.deep_view()),
        }
    }
}

/// The stimuli, in the order in which they are applied.
#[derive(Clone, PartialEq, Eq, Debug)]
pub struct WhenClause {
    pub actions: Vec<Action>,
}

/// The mathematical model of a [`WhenClause`].
pub struct When {
    pub actions: Seq<Step>,
}

impl DeepView for WhenClause {
    type V = When;

    open spec fn deep_view(&self) -> When {
        When { actions: self.actions.deep_view() }
    }
}

/// One expected outcome.
#[derive(Clone, PartialEq, Eq, Debug)]
pub enum Assertion {
    /// A boolean expression that must hold.
    ComponentCheck(Expr),
    /// Event types of which at least one event each must have been sent.
    EventsReceived(Vec<String>),
    /// An expression whose value is reported.
    Snapshot(Expr),
}

/// The mathematical model of an [`Assertion`].
pub enum Check {
    ComponentCheck(Seq<char>),
    EventsReceived(Seq<Seq<char>>),
    Snapshot(Seq<char>),
}

impl DeepView for Assertion {
    type V = Check;

    open spec fn deep_view(&self) -> Check {
        match self {
            Assertion::ComponentCheck(e) => Check::ComponentCheck(e.deep_view()),
            Assertion::EventsReceived(events) => Check::EventsReceived(events.deep_view()),
            Assertion::Snapshot(e) => Check::Snapshot(e.deep_view()),
        }
    }
}

/// The expected outcomes, in the order in which they are checked.
#[derive(Clone, PartialEq, Eq, Debug)]
pub struct ThenClause {
    pub assertions: Vec<Assertion>,
}

/// The mathematical model of a [`ThenClause`].
pub struct Then {
    pub assertions: Seq<Check>,
}

impl DeepView for ThenClause {
    type V = Then;

    open spec fn deep_view(&self) -> Then {
        Then { assertions: self.assertions.deep_view() }
    }
}

/// A scenario test: a name and the three clauses.
#[derive(Clone, PartialEq, Eq, Debug)]
pub struct TestScenario {
    pub name: String,
    pub given: GivenClause,
    pub when: WhenClause,
    pub outcome: ThenClause,
}

/// The mathematical model of a [`TestScenario`].
pub struct Scenario {
    pub name: Seq<char>,
    pub given: Given,
    pub when: When,
    pub outcome: Then,
}

impl DeepView for TestScenario {
    type V = Scenario;

    open spec fn deep_view(&self) -> Scenario {
        Scenario {
            name: self.name@,
            given: self.given.deep_view(),
            when: self.when.deep_view(),
            outcome: self.outcome.deep_view(),
        }
    }
}

/// Where a name stands among fields, looked for from place `from` on: the
/// place of the first field of that name, or the number of fields where
/// there is none.
pub open spec fn field_place(fields: Seq<Field>, name: Seq<char>, from: int) -> int
    decreases fields.len() - from,
{
    if from < 0 || from >= fields.len() {
        fields.len() as int
    } else if fields[from].name == name {
        from
    } else {
        field_place(fields, name, from + 1)
    }
}

/// The fields with one more set: a name that is there already keeps its
/// place and takes the new value, a new name comes last.
pub open spec fn with_field(fields: Seq<Field>, field: Field) -> Seq<Field> {
    let place = field_place(fields, field.name, 0);
    if place < fields.len() {
        fields.update(place, field)
    } else {
        fields.push(field)
    }
}

/// Whether no two fields have the same name.
pub open spec fn distinct_names(fields: Seq<Field>) -> bool {
    forall|i: int, j: int|
        0 <= i < fields.len() && 0 <= j < fields.len() && i != j ==> (#[trigger] fields[i]).name
            != (#[trigger] fields[j]).name
}

/// Where a name is found, it stands, and not before; where it is not found,
/// it stands nowhere behind the place from which it was looked for.
pub proof fn lemma_field_place(fields: Seq<Field>, name: Seq<char>, from: int)
    requires
        0 <= from <= fields.len(),
    ensures
        from <= field_place(fields, name, from) <= fields.len(),
        field_place(fields, name, from) < fields.len() ==> fields[field_place(
            fields,
            name,
            from,
        )].name == name,
        forall|k: int| from <= k < field_place(fields, name, from) ==> fields[k].name != name,
    decreases fields.len() - from,
{
    if from < fields.len() && fields[from].name != name {
        lemma_field_place(fields, name, from + 1);
    }
}

/// Setting a field keeps the names distinct.
pub proof fn lemma_with_field_keeps_names_distinct(fields: Seq<Field>, field: Field)
    requires
        distinct_names(fields),
    ensures
        distinct_names(with_field(fields, field)),
{
    lemma_field_place(fields, field.name, 0);
    let place = field_place(fields, field.name, 0);
    let set = with_field(fields, field);
    assert forall|i: int, j: int| 0 <= i < set.len() && 0 <= j < set.len() && i != j implies (
    #[trigger] set[i]).name != (#[trigger] set[j]).name by {
        if place < fields.len() {
            if i != place && j != place {
                assert(fields[i].name != fields[j].name);
            } else if i == place {
                assert(fields[place].name != fields[j].name);
            } else {
                assert(fields[i].name != fields[place].name);
            }
        } else {
            if i < fields.len() && j < fields.len() {
                assert(fields[i].name != fields[j].name);
            }
        }
    }
}

/// What the content of an entity's braces means, read from place `i` on with
/// `acc` already read: `name: value` pairs with a comma between each two
/// and, optionally, behind the last. The pairs make a mapping that keeps the
/// order in which the names first come: a name that comes again takes the
/// later value and keeps its place.
pub open spec fn fields_from(s: Seq<Tok>, i: int, acc: Seq<Field>) -> Result<Seq<Field>, Failure>
    decreases s.len() - i,
{
    if i >= s.len() {
        Ok(acc)
    } else {
        match identifier_at(s, i) {
            None => Err(Failure::at(ErrorKind::ExpectedIdentifier, i)),
            Some(name) => if !punct_at(s, i + 1, ':') {
                Err(Failure::at(ErrorKind::ExpectedColon, i + 1))
            } else {
                match expression_at(s, i + 2) {
                    None => Err(Failure::at(ErrorKind::ExpectedExpression, i + 2)),
                    Some((value, next)) => match separator_at(s, next) {
                        Err(e) => Err(e),
                        Ok(after) => fields_from(s, after, with_field(acc, Field { name, value })),
                    },
                }
            },
        }
    }
}

/// Sets a field: a name that is there already keeps its place and takes the
/// new value, a new name comes last.
pub fn set_field(fields: &mut Vec<FieldInit>, field: FieldInit)
    ensures
        final(fields).deep_view() == with_field(old(fields).deep_view(), field.deep_view()),
{
    let ghost before = fields.deep_view();
    let ghost name = field.name@;
    let mut k: usize = 0;
    while k < fields.len()
        invariant
            k <= fields.len(),
            fields.deep_view() == before,
            before == old(fields).deep_view(),
            name == field.name@,
            field_place(before, name, 0) == field_place(before, name, k as int),
        decreases fields.len() - k,
    {
        assert(before[k as int] == fields@[k as int].deep_view());
        if same_text(fields[k].name.as_str(), field.name.as_str()) {
            let ghost model = field.deep_view();
            fields.set(k, field);
            assert(fields.deep_view() =~= before.update(k as int, model));
            return ;
        }
        k += 1;
    }
    let ghost model = field.deep_view();
    fields.push(field);
    assert(fields.deep_view() =~= before.push(model));
}

/// Reads the content of an entity's braces.
pub fn parse_fields(tokens: &Vec<Token>) -> (r: Result<Vec<FieldInit>, ParseError>)
    ensures
        agrees(r, fields_from(tokens.deep_view(), 0, Seq::empty())),
{
    let mut fields: Vec<FieldInit> = Vec::new();
    let mut i: usize = 0;
    assert(fields.deep_view() =~= Seq::<Field>::empty());
    while i < tokens.len()
        invariant
            i <= tokens.len(),
            fields_from(tokens.deep_view(), 0, Seq::empty()) == fields_from(
                tokens.deep_view(),
                i as int,
                fields.deep_view(),
            ),
        decreases tokens.len() - i,
    {
        let name = match identifier(tokens, i) {
            None => {
                return Err(ParseError::at(ErrorKind::ExpectedIdentifier, i));
            },
            Some(name) => name.clone(),
        };
        if !is_punct(tokens, i + 1, ':') {
            return Err(ParseError::at(ErrorKind::ExpectedColon, i + 1));
        }
        match parse_expression(tokens, i + 2) {
            None => {
                return Err(ParseError::at(ErrorKind::ExpectedExpression, i + 2));
            },
            Some((value, next)) => {
                let after = match parse_separator(tokens, next) {
                    Err(e) => {
                        return Err(e);
                    },
                    Ok(after) => after,
                };
                set_field(&mut fields, FieldInit { name, value });
                i = after;
            },
        }
    }
    Ok(fields)
}

/// What the content of an `entities` list means, read from place `i` on with
/// `acc` already read: a type name and braced fields for each entity, with a
/// comma between each two entities and, optionally, behind the last.
pub open spec fn entities_from(s: Seq<Tok>, i: int, acc: Seq<Entity>) -> Result<
    Seq<Entity>,
    Failure,
>
    decreases s.len() - i,
{
    if i >= s.len() {
        Ok(acc)
    } else {
        match identifier_at(s, i) {
            None => Err(Failure::at(ErrorKind::ExpectedIdentifier, i)),
            Some(type_tag) => match group_at(s, i + 1, Delimiter::Brace) {
                None => Err(Failure::at(ErrorKind::ExpectedBraces, i + 1)),
                Some(inner) => match fields_from(inner, 0, Seq::empty()) {
                    Err(e) => Err(e.inside(i + 1)),
                    Ok(fields) => match separator_at(s, i + 2) {
                        Err(e) => Err(e),
                        Ok(after) => entities_from(s, after, acc.push(Entity { type_tag, fields })),
                    },
                },
            },
        }
    }
}

/// What stands at place `i` as a bracketed list of entities.
pub open spec fn entity_list_at(s: Seq<Tok>, i: int) -> Result<Seq<Entity>, Failure> {
    match group_at(s, i, Delimiter::Bracket) {
        None => Err(Failure::at(ErrorKind::ExpectedBrackets, i)),
        Some(inner) => match entities_from(inner, 0, Seq::empty()) {
            Ok(list) => Ok(list),
            Err(e) => Err(e.inside(i)),
        },
    }
}

/// Reads the content of an `entities` list.
pub fn parse_entities(tokens: &Vec<Token>) -> (r: Result<Vec<EntityDef>, ParseError>)
    ensures
        agrees(r, entities_from(tokens.deep_view(), 0, Seq::empty())),
{
    let mut entities: Vec<EntityDef> = Vec::new();
    let mut i: usize = 0;
    assert(entities.deep_view() =~= Seq::<Entity>::empty());
    while i < tokens.len()
        invariant
            i <= tokens.len(),
            entities_from(tokens.deep_view(), 0, Seq::empty()) == entities_from(
                tokens.deep_view(),
                i as int,
                entities.deep_view(),
            ),
        decreases tokens.len() - i,
    {
        let type_tag = match identifier(tokens, i) {
            None => {
                return Err(ParseError::at(ErrorKind::ExpectedIdentifier, i));
            },
            Some(name) => name.clone(),
        };
        let inner = match group(tokens, i + 1, Delimiter::Brace) {
            None => {
                return Err(ParseError::at(ErrorKind::ExpectedBraces, i + 1));
            },
            Some(inner) => inner,
        };
        match parse_fields(inner) {
            Err(e) => {
                return Err(e.inside(i + 1));
            },
            Ok(fields) => {
                let after = match parse_separator(tokens, i + 2) {
                    Err(e) => {
                        return Err(e);
                    },
                    Ok(after) => after,
                };
                let ghost before = entities.deep_view();
                let entity = EntityDef { type_tag, fields };
                entities.push(entity);
                assert(entities.deep_view() =~= before.push(entity.deep_view()));
                i = after;
            },
        }
    }
    Ok(entities)
}

/// Reads the bracketed list of entities at place `i`.
pub fn parse_entity_list(tokens: &Vec<Token>, i: usize) -> (r: Result<Vec<EntityDef>, ParseError>)
    ensures
        agrees(r, entity_list_at(tokens.deep_view(), i as int)),
        r is Ok ==> i < tokens.len(),
{
    match group(tokens, i, Delimiter::Bracket) {
        None => Err(ParseError::at(ErrorKind::ExpectedBrackets, i)),
        Some(inner) => match parse_entities(inner) {
            Ok(list) => Ok(list),
            Err(e) => Err(e.inside(i)),
        },
    }
}

/// The `given` clause that names nothing.
pub open spec fn empty_given() -> Given {
    Given {
        resources: Seq::empty(),
        events: Seq::empty(),
        systems: Seq::empty(),
        entities: Seq::empty(),
    }
}

/// What the content of a `given` clause means, read from place `i` on with
/// `acc` already read. Each field is a name, a colon and a bracketed list;
/// the names are `resources`, `events`, `systems` and `entities`, in any
/// order, and a name that comes again adds to its list. A comma stands
/// between each two fields and, optionally, behind the last.
pub open spec fn given_from(s: Seq<Tok>, i: int, acc: Given) -> Result<Given, Failure>
    decreases s.len() - i,
{
    if i >= s.len() {
        Ok(acc)
    } else {
        match identifier_at(s, i) {
            None => Err(Failure::at(ErrorKind::ExpectedIdentifier, i)),
            Some(name) => if !punct_at(s, i + 1, ':') {
                Err(Failure::at(ErrorKind::ExpectedColon, i + 1))
            } else if name == "resources"@ {
                match expression_list_at(s, i + 2) {
                    Err(e) => Err(e),
                    Ok(list) => match separator_at(s, i + 3) {
                        Err(e) => Err(e),
                        Ok(after) => given_from(
                            s,
                            after,
                            Given {
                                resources: acc.resources + list,
                                events: acc.events,
                                systems: acc.systems,
                                entities: acc.entities,
                            },
                        ),
                    },
                }
            } else if name == "events"@ {
                match expression_list_at(s, i + 2) {
                    Err(e) => Err(e),
                    Ok(list) => match separator_at(s, i + 3) {
                        Err(e) => Err(e),
                        Ok(after) => given_from(
                            s,
                            after,
                            Given {
                                resources: acc.resources,
                                events: acc.events + list,
                                systems: acc.systems,
                                entities: acc.entities,
                            },
                        ),
                    },
                }
            } else if name == "systems"@ {
                match expression_list_at(s, i + 2) {
                    Err(e) => Err(e),
                    Ok(list) => match separator_at(s, i + 3) {
                        Err(e) => Err(e),
                        Ok(after) => given_from(
                            s,
                            after,
                            Given {
                                resources: acc.resources,
                                events: acc.events,
                                systems: acc.systems + list,
                                entities: acc.entities,
                            },
                        ),
                    },
                }
            } else if name == "entities"@ {
                match entity_list_at(s, i + 2) {
                    Err(e) => Err(e),
                    Ok(list) => match separator_at(s, i + 3) {
                        Err(e) => Err(e),
                        Ok(after) => given_from(
                            s,
                            after,
                            Given {
                                resources: acc.resources,
                                events: acc.events,
                                systems: acc.systems,
                                entities: acc.entities + list,
                            },
                        ),
                    },
                }
            } else {
                Err(Failure::at(ErrorKind::UnknownField, i))
            },
        }
    }
}

/// What the content of a `given` clause means.
pub open spec fn given_clause(s: Seq<Tok>) -> Result<Given, Failure> {
    given_from(s, 0, empty_given())
}

/// Moves the entities of `more` to the end of `list`.
fn extend_entities(list: &mut Vec<EntityDef>, more: Vec<EntityDef>)
    ensures
        final(list).deep_view() == old(list).deep_view() + more.deep_view(),
{
    let ghost added = more.deep_view();
    let mut rest = more;
    list.append(&mut rest);
    assert(list.deep_view() =~= old(list).deep_view() + added);
}

/// Reads the content of a `given` clause.
pub fn parse_given_clause(tokens: &Vec<Token>) -> (r: Result<GivenClause, ParseError>)
    ensures
        agrees(r, given_clause(tokens.deep_view())),
{
    let mut given = GivenClause {
        resources: Vec::new(),
        events: Vec::new(),
        systems: Vec::new(),
        entities: Vec::new(),
    };
    let mut i: usize = 0;
    assert(given.deep_view().resources =~= Seq::empty());
    assert(given.deep_view().events =~= Seq::empty());
    assert(given.deep_view().systems =~= Seq::empty());
    assert(given.deep_view().entities =~= Seq::empty());
    while i < tokens.len()
        invariant
            i <= tokens.len(),
            given_clause(tokens.deep_view()) == given_from(
                tokens.deep_view(),
                i as int,
                given.deep_view(),
            ),
        decreases tokens.len() - i,
    {
        let name = match identifier(tokens, i) {
            None => {
                return Err(ParseError::at(ErrorKind::ExpectedIdentifier, i));
            },
            Some(name) => name.as_str(),
        };
        if !is_punct(tokens, i + 1, ':') {
            return Err(ParseError::at(ErrorKind::ExpectedColon, i + 1));
        }
        if same_text(name, "resources") {
            match parse_expression_list(tokens, i + 2) {
                Err(e) => {
                    return Err(e);
                },
                Ok(list) => extend_expressions(&mut given.resources, list),
            }
        } else if same_text(name, "events") {
            match parse_expression_list(tokens, i + 2) {
                Err(e) => {
                    return Err(e);
                },
                Ok(list) => extend_expressions(&mut given.events, list),
            }
        } else if same_text(name, "systems") {
            match parse_expression_list(tokens, i + 2) {
                Err(e) => {
                    return Err(e);
                },
                Ok(list) => extend_expressions(&mut given.systems, list),
            }
        } else if same_text(name, "entities") {
            match parse_entity_list(tokens, i + 2) {
                Err(e) => {
                    return Err(e);
                },
                Ok(list) => extend_entities(&mut given.entities, list),
            }
        } else {
            return Err(ParseError::at(ErrorKind::UnknownField, i));
        }
        i = match parse_separator(tokens, i + 3) {
            Err(e) => {
                return Err(e);
            },
            Ok(after) => after,
        };
    }
    Ok(given)
}

/// What the content of a `when` clause means, read from place `i` on with
/// `acc` already read. Each action is a name, a colon and an expression; the
/// names are `event`, `advance` and `input`. The expression of an `advance`
/// is read as a span of time. A comma stands between each two actions and,
/// optionally, behind the last.
pub open spec fn actions_from(s: Seq<Tok>, i: int, acc: Seq<Step>) -> Result<Seq<Step>, Failure>
    decreases s.len() - i,
{
    if i >= s.len() {
        Ok(acc)
    } else {
        match identifier_at(s, i) {
            None => Err(Failure::at(ErrorKind::ExpectedIdentifier, i)),
            Some(name) => if !punct_at(s, i + 1, ':') {
                Err(Failure::at(ErrorKind::ExpectedColon, i + 1))
            } else if name == "event"@ || name == "advance"@ || name == "input"@ {
                match expression_at(s, i + 2) {
                    None => Err(Failure::at(ErrorKind::ExpectedExpression, i + 2)),
                    Some((text, next)) => match separator_at(s, next) {
                        Err(e) => Err(e),
                        Ok(after) => actions_from(
                            s,
                            after,
                            acc.push(
                                if name == "event"@ {
                                    Step::Event(text)
                                } else if name == "advance"@ {
                                    Step::Advance(time_advance(method_call_of(text)))
                                } else {
                                    Step::Input(text)
                                },
                            ),
                        ),
                    },
                }
            } else {
                Err(Failure::at(ErrorKind::UnknownAction, i))
            },
        }
    }
}

/// What the content of a `when` clause means.
pub open spec fn when_clause(s: Seq<Tok>) -> Result<When, Failure> {
    match actions_from(s, 0, Seq::empty()) {
        Ok(actions) => Ok(When { actions }),
        Err(e) => Err(e),
    }
}

/// Reads the content of a `when` clause.
pub fn parse_when_clause(tokens: &Vec<Token>) -> (r: Result<WhenClause, ParseError>)
    ensures
        agrees(r, when_clause(tokens.deep_view())),
{
    let mut actions: Vec<Action> = Vec::new();
    let mut i: usize = 0;
    assert(actions.deep_view() =~= Seq::<Step>::empty());
    while i < tokens.len()
        invariant
            i <= tokens.len(),
            actions_from(tokens.deep_view(), 0, Seq::empty()) == actions_from(
                tokens.deep_view(),
                i as int,
                actions.deep_view(),
            ),
        decreases tokens.len() - i,
    {
        let name = match identifier(tokens, i) {
            None => {
                return Err(ParseError::at(ErrorKind::ExpectedIdentifier, i));
            },
            Some(name) => name.as_str(),
        };
        if !is_punct(tokens, i + 1, ':') {
            return Err(ParseError::at(ErrorKind::ExpectedColon, i + 1));
        }
        let is_event = same_text(name, "event");
        let is_advance = same_text(name, "advance");
        if !(is_event || is_advance || same_text(name, "input")) {
            return Err(ParseError::at(ErrorKind::UnknownAction, i));
        }
        match parse_expression(tokens, i + 2) {
            None => {
                return Err(ParseError::at(ErrorKind::ExpectedExpression, i + 2));
            },
            Some((expr, next)) => {
                let ghost before = actions.deep_view();
                let action = if is_event {
                    Action::Event(expr)
                } else if is_advance {
                    Action::Advance(parse_time_advance(&expr))
                } else {
                    Action::Input(expr)
                };
                actions.push(action);
                assert(actions.deep_view() =~= before.push(action.deep_view()));
                i = match parse_separator(tokens, next) {
                    Err(e) => {
                        return Err(e);
                    },
                    Ok(after) => after,
                };
            },
        }
    }
    Ok(WhenClause { actions })
}

/// What the content of a `then` clause means, read from place `i` on with
/// `acc` already read. The word `events_received` opens a colon and a
/// bracketed list of event types, the word `snapshot` a colon and an
/// expression; anything else is a boolean expression to check. A comma
/// stands between each two assertions and, optionally, behind the last.
pub open spec fn assertions_from(s: Seq<Tok>, i: int, acc: Seq<Check>) -> Result<
    Seq<Check>,
    Failure,
>
    decreases s.len() - i,
{
    if i >= s.len() {
        Ok(acc)
    } else if word_at(s, i) == Some("events_received"@) {
        if !punct_at(s, i + 1, ':') {
            Err(Failure::at(ErrorKind::ExpectedColon, i + 1))
        } else {
            match group_at(s, i + 2, Delimiter::Bracket) {
                None => Err(Failure::at(ErrorKind::ExpectedBrackets, i + 2)),
                Some(inner) => match identifiers(inner) {
                    Err(e) => Err(e.inside(i + 2)),
                    Ok(events) => match separator_at(s, i + 3) {
                        Err(e) => Err(e),
                        Ok(after) => assertions_from(
                            s,
                            after,
                            acc.push(Check::EventsReceived(events)),
                        ),
                    },
                },
            }
        }
    } else if word_at(s, i) == Some("snapshot"@) {
        if !punct_at(s, i + 1, ':') {
            Err(Failure::at(ErrorKind::ExpectedColon, i + 1))
        } else {
            match expression_at(s, i + 2) {
                None => Err(Failure::at(ErrorKind::ExpectedExpression, i + 2)),
                Some((text, next)) => match separator_at(s, next) {
                    Err(e) => Err(e),
                    Ok(after) => assertions_from(
                        s,
                        after,
                        acc.push(Check::Snapshot(text)),
                    ),
                },
            }
        }
    } else {
        match expression_at(s, i) {
            None => Err(Failure::at(ErrorKind::ExpectedExpression, i)),
            Some((text, next)) => match separator_at(s, next) {
                Err(e) => Err(e),
                Ok(after) => assertions_from(
                    s,
                    after,
                    acc.push(Check::ComponentCheck(text)),
                ),
            },
        }
    }
}

/// What the content of a `then` clause means.
pub open spec fn then_clause(s: Seq<Tok>) -> Result<Then, Failure> {
    match assertions_from(s, 0, Seq::empty()) {
        Ok(assertions) => Ok(Then { assertions }),
        Err(e) => Err(e),
    }
}

/// Reads the content of a `then` clause.
pub fn parse_then_clause(tokens: &Vec<Token>) -> (r: Result<ThenClause, ParseError>)
    ensures
        agrees(r, then_clause(tokens.deep_view())),
{
    let mut assertions: Vec<Assertion> = Vec::new();
    let mut i: usize = 0;
    assert(assertions.deep_view() =~= Seq::<Check>::empty());
    while i < tokens.len()
        invariant
            i <= tokens.len(),
            assertions_from(tokens.deep_view(), 0, Seq::empty()) == assertions_from(
                tokens.deep_view(),
                i as int,
                assertions.deep_view(),
            ),
        decreases tokens.len() - i,
    {
        let ghost before = assertions.deep_view();
        if is_word(tokens, i, "events_received") {
            if !is_punct(tokens, i + 1, ':') {
                return Err(ParseError::at(ErrorKind::ExpectedColon, i + 1));
            }
            let inner = match group(tokens, i + 2, Delimiter::Bracket) {
                None => {
                    return Err(ParseError::at(ErrorKind::ExpectedBrackets, i + 2));
                },
                Some(inner) => inner,
            };
            match parse_identifiers(inner) {
                Err(e) => {
                    return Err(e.inside(i + 2));
                },
                Ok(events) => {
                    let assertion = Assertion::EventsReceived(events);
                    assertions.push(assertion);
                    assert(assertions.deep_view() =~= before.push(assertion.deep_view()));
                    i = match parse_separator(tokens, i + 3) {
                        Err(e) => {
                            return Err(e);
                        },
                        Ok(after) => after,
                    };
                },
            }
        } else if is_word(tokens, i, "snapshot") {
            if !is_punct(tokens, i + 1, ':') {
                return Err(ParseError::at(ErrorKind::ExpectedColon, i + 1));
            }
            match parse_expression(tokens, i + 2) {
                None => {
                    return Err(ParseError::at(ErrorKind::ExpectedExpression, i + 2));
                },
                Some((expr, next)) => {
                    let assertion = Assertion::Snapshot(expr);
                    assertions.push(assertion);
                    assert(assertions.deep_view() =~= before.push(assertion.deep_view()));
                    i = match parse_separator(tokens, next) {
                        Err(e) => {
                            return Err(e);
                        },
                        Ok(after) => after,
                    };
                },
            }
        } else {
            match parse_expression(tokens, i) {
                None => {
                    return Err(ParseError::at(ErrorKind::ExpectedExpression, i));
                },
                Some((expr, next)) => {
                    let assertion = Assertion::ComponentCheck(expr);
                    assertions.push(assertion);
                    assert(assertions.deep_view() =~= before.push(assertion.deep_view()));
                    i = match parse_separator(tokens, next) {
                        Err(e) => {
                            return Err(e);
                        },
                        Ok(after) => after,
                    };
                },
            }
        }
    }
    Ok(ThenClause { assertions })
}

/// What the body of a scenario named `name` means: the clauses `given`,
/// `when` and `then`, each once and in this order, each a keyword, a colon
/// and a braced group, with an optional comma after the first and after the
/// second, and nothing behind the third. An error inside a clause is located
/// from the body.
pub open spec fn scenario_body(name: Seq<char>, s: Seq<Tok>) -> Result<Scenario, Failure> {
    match clause_at(s, 0, Keyword::Given) {
        Err(e) => Err(e),
        Ok(given_tokens) => match given_clause(given_tokens) {
            Err(e) => Err(e.inside(2)),
            Ok(given) => {
                let i = after_comma(s, 3);
                match clause_at(s, i, Keyword::When) {
                    Err(e) => Err(e),
                    Ok(when_tokens) => match when_clause(when_tokens) {
                        Err(e) => Err(e.inside(i + 2)),
                        Ok(when) => {
                            let j = after_comma(s, i + 3);
                            match clause_at(s, j, Keyword::Then) {
                                Err(e) => Err(e),
                                Ok(then_tokens) => match then_clause(then_tokens) {
                                    Err(e) => Err(e.inside(j + 2)),
                                    Ok(outcome) => if s.len() > j + 3 {
                                        Err(Failure::at(ErrorKind::UnexpectedToken, j + 3))
                                    } else {
                                        Ok(Scenario { name, given, when, outcome })
                                    },
                                },
                            }
                        },
                    },
                }
            },
        },
    }
}

/// What a token sequence means as a scenario test: a name and a braced body,
/// and nothing behind them.
pub open spec fn scenario(s: Seq<Tok>) -> Result<Scenario, Failure> {
    match named_body(s) {
        Err(e) => Err(e),
        Ok((name, body)) => match scenario_body(name, body) {
            Err(e) => Err(e.inside(1)),
            Ok(parsed) => if s.len() > 2 {
                Err(Failure::at(ErrorKind::UnexpectedToken, 2))
            } else {
                Ok(parsed)
            },
        },
    }
}

fn parse_scenario_body(name: String, tokens: &Vec<Token>) -> (r: Result<TestScenario, ParseError>)
    ensures
        agrees(r, scenario_body(name@, tokens.deep_view())),
{
    let given = match parse_clause(tokens, 0, Keyword::Given) {
        Err(e) => {
            return Err(e);
        },
        Ok(inner) => match parse_given_clause(inner) {
            Err(e) => {
                return Err(e.inside(2));
            },
            Ok(given) => given,
        },
    };
    let i = skip_comma(tokens, 3);
    let when = match parse_clause(tokens, i, Keyword::When) {
        Err(e) => {
            return Err(e);
        },
        Ok(inner) => match parse_when_clause(inner) {
            Err(e) => {
                return Err(e.inside(i + 2));
            },
            Ok(when) => when,
        },
    };
    let j = skip_comma(tokens, i + 3);
    let outcome = match parse_clause(tokens, j, Keyword::Then) {
        Err(e) => {
            return Err(e);
        },
        Ok(inner) => match parse_then_clause(inner) {
            Err(e) => {
                return Err(e.inside(j + 2));
            },
            Ok(outcome) => outcome,
        },
    };
    if tokens.len() > j + 3 {
        return Err(ParseError::at(ErrorKind::UnexpectedToken, j + 3));
    }
    Ok(TestScenario { name, given, when, outcome })
}

impl TestScenario {
    /// Parses a scenario test.
    ///
    /// Succeeds exactly on the token sequences that [`scenario`] gives a
    /// meaning, with that meaning; fails otherwise, with the first error in
    /// reading order.
    pub fn parse(tokens: &Vec<Token>) -> (r: Result<TestScenario, ParseError>)
        ensures
            agrees(r, scenario(tokens.deep_view())),
    {
        match parse_named_body(tokens) {
            Err(e) => Err(e),
            Ok((name, body)) => match parse_scenario_body(name.clone(), body) {
                Err(e) => Err(e.inside(1)),
                Ok(parsed) => if tokens.len() > 2 {
                    Err(ParseError::at(ErrorKind::UnexpectedToken, 2))
                } else {
                    Ok(parsed)
                },
            },
        }
    }
}

/// The name of the handle of the entity at place `index` of the `entities`
/// list: `entity_` and the index in decimal notation.
pub open spec fn handle_name(index: nat) -> Seq<char> {
    "entity_"@ + digits_of(index)
}

/// The text of the first `n` field initialisers, each followed by a comma.
pub open spec fn fields_text(fields: Seq<Field>, n: nat) -> Seq<char>
    decreases n,
{
    if n == 0 || n > fields.len() {
        Seq::empty()
    } else {
        fields_text(fields, (n - 1) as nat) + fields[n - 1].name + ": "@ + fields[n - 1].value
            + ", "@
    }
}

/// The expression that constructs an entity: a record of its type with the
/// fields that the specification sets, in their order, and defaults for all
/// others.
pub open spec fn construction(entity: Entity) -> Seq<char> {
    entity.type_tag + " { "@ + fields_text(entity.fields, entity.fields.len())
        + "..Default::default() }"@
}

/// The bindings of a list of entities: one for each entity, in the order of
/// the list, the entity at place `i` bound to the handle `entity_i`.
pub open spec fn bindings(entities: Seq<Entity>) -> Seq<Binding> {
    Seq::new(
        entities.len(),
        |i: int| Binding { handle: handle_name(i as nat), construction: construction(entities[i]) },
    )
}

/// No two entities of a list share a handle.
pub proof fn lemma_handles_distinct(entities: Seq<Entity>, i: int, j: int)
    requires
        0 <= i < entities.len(),
        0 <= j < entities.len(),
        i != j,
    ensures
        bindings(entities)[i].handle != bindings(entities)[j].handle,
{
    lemma_digits_distinct(i as nat, j as nat);
    let a = handle_name(i as nat);
    let b = handle_name(j as nat);
    if a == b {
        let n = "entity_"@.len() as int;
        assert(a.skip(n) =~= digits_of(i as nat));
        assert(b.skip(n) =~= digits_of(j as nat));
    }
}

fn construct(entity: &EntityDef) -> (r: String)
    ensures
        r@ == construction(entity.deep_view()),
{
    let mut out = entity.type_tag.clone();
    out.append(" { ");
    let ghost head = out@;
    let ghost fields = entity.fields.deep_view();
    let mut i: usize = 0;
    assert(out@ =~= head + fields_text(fields, 0));
    while i < entity.fields.len()
        invariant
            i <= entity.fields.len(),
            fields == entity.fields.deep_view(),
            out@ == head + fields_text(fields, i as nat),
        decreases entity.fields.len() - i,
    {
        let field = &entity.fields[i];
        assert(fields[i as int] == field.deep_view());
        out.append(field.name.as_str());
        out.append(": ");
        out.append(field.value.text.as_str());
        out.append(", ");
        assert(out@ =~= head + (fields_text(fields, i as nat) + fields[i as int].name + ": "@
            + fields[i as int].value + ", "@));
        i += 1;
    }
    out.append("..Default::default() }");
    assert(out@ =~= construction(entity.deep_view()));
    out
}

/// Binds each entity of a list to its handle.
///
/// The result has one binding for each entity and no other, in the order of
/// the list; the handle of the entity at place `i` is `entity_i`.
pub fn bind_entities(entities: &Vec<EntityDef>) -> (r: Vec<EntityBinding>)
    ensures
        r.deep_view() == bindings(entities.deep_view()),
        r.len() == entities.len(),
        forall|i: int| 0 <= i < r.len() ==> (#[trigger] r[i]).handle@ == handle_name(i as nat),
{
    let mut bound: Vec<EntityBinding> = Vec::new();
    let mut i: usize = 0;
    assert(bound.deep_view() =~= bindings(entities.deep_view()).take(0));
    while i < entities.len()
        invariant
            i <= entities.len(),
            bound.len() == i,
            bound.deep_view() == bindings(entities.deep_view()).take(i as int),
            forall|k: int| 0 <= k < i ==> (#[trigger] bound[k]).handle@ == handle_name(k as nat),
        decreases entities.len() - i,
    {
        let ghost so_far = bound.deep_view();
        let mut handle = String::from_str("entity_");
        push_decimal(&mut handle, i as u128);
        let binding = EntityBinding { handle, construction: construct(&entities[i]) };
        assert(entities.deep_view()[i as int] == entities@[i as int].deep_view());
        bound.push(binding);
        assert(bound.deep_view() =~= so_far.push(binding.deep_view()));
        assert(bound.deep_view() =~= bindings(entities.deep_view()).take(i + 1));
        i += 1;
    }
    assert(bindings(entities.deep_view()).take(entities.len() as int) =~= bindings(
        entities.deep_view(),
    ));
    bound
}

/// The statements that set up the initial state: each resource is inserted,
/// then each event type is registered, then each system is added to the
/// per-tick schedule, then each entity is spawned and bound to its handle;
/// within each kind, in the order of the specification.
pub open spec fn setup_statements(given: Given) -> Seq<Seq<char>> {
    wrapped_each("app.insert_resource("@, given.resources, ");"@) + wrapped_each(
        "app.add_event::<"@,
        given.events,
        ">();"@,
    ) + wrapped_each("app.add_systems(Update, "@, given.systems, ");"@) + spawn_statements(
        bindings(given.entities),
    )
}

/// The statement that replays one action: an event or an input is sent at
/// once, and a span of time is as many harness ticks as it takes. The number
/// of ticks is written as a 128-bit literal, which holds every count.
pub open spec fn action_statement(step: Step) -> Seq<char> {
    match step {
        Step::Event(value) => wrapped("app.world_mut().send_event("@, value, ");"@),
        Step::Input(value) => wrapped("app.world_mut().send_event("@, value, ");"@),
        Step::Advance(span) => wrapped(
            "for _ in 0.."@,
            digits_of(span.ticks()),
            "u128 { app.update(); }"@,
        ),
    }
}

/// The statements that replay the actions, in their order.
pub open spec fn action_statements(when: When) -> Seq<Seq<char>> {
    Seq::new(when.actions.len(), |i: int| action_statement(when.actions[i]))
}

/// The two statements that check that events of one type were received: the
/// queue of the type is looked up, and it must not be empty.
pub open spec fn received_statements(event: Seq<char>) -> Seq<Seq<char>> {
    seq![
        wrapped("let event_reader = app.world().resource::<Events<"@, event, ">>();"@),
        wrapped(
            "assert!(!event_reader.is_empty(), \"Event {} should have been received\", stringify!("@,
            event,
            "));"@,
        ),
    ]
}

/// The statements for the first `n` event types of an `events_received`
/// assertion.
pub open spec fn received_prefix(events: Seq<Seq<char>>, n: nat) -> Seq<Seq<char>>
    decreases n,
{
    if n == 0 || n > events.len() {
        Seq::empty()
    } else {
        received_prefix(events, (n - 1) as nat) + received_statements(events[n - 1])
    }
}

/// The statements that check one assertion. A boolean expression must hold,
/// and its text is part of the failure message; each event type of an
/// `events_received` must have a queue that is not empty; the value of a
/// snapshot is printed.
pub open spec fn check_statements(check: Check) -> Seq<Seq<char>> {
    match check {
        Check::ComponentCheck(text) => seq![assertion_statement(text)],
        Check::EventsReceived(events) => received_prefix(events, events.len()),
        Check::Snapshot(text) => seq![
            wrapped("let snapshot_value = "@, text, ";"@),
            "println!(\"Snapshot: {:?}\", snapshot_value);"@,
        ],
    }
}

/// The statements that check the first `n` assertions.
pub open spec fn assertion_prefix(assertions: Seq<Check>, n: nat) -> Seq<Seq<char>>
    decreases n,
{
    if n == 0 || n > assertions.len() {
        Seq::empty()
    } else {
        assertion_prefix(assertions, (n - 1) as nat) + check_statements(assertions[n - 1])
    }
}

/// The statements that check the assertions, in their order.
pub open spec fn assertion_statements(outcome: Then) -> Seq<Seq<char>> {
    assertion_prefix(outcome.assertions, outcome.assertions.len())
}

/// The statements of the procedure of a scenario: a fresh harness, the
/// setup, the actions, the assertions.
pub open spec fn scenario_statements(scenario: Scenario) -> Seq<Seq<char>> {
    harness_statements() + setup_statements(scenario.given) + action_statements(scenario.when)
        + assertion_statements(scenario.outcome)
}

fn action_text(action: &Action) -> (r: String)
    ensures
        r@ == action_statement(action.deep_view()),
{
    match action {
        Action::Event(value) => wrap("app.world_mut().send_event(", value.text.as_str(), ");"),
        Action::Input(value) => wrap("app.world_mut().send_event(", value.text.as_str(), ");"),
        Action::Advance(span) => {
            let mut ticks = String::new();
            push_decimal(&mut ticks, span.tick_count());
            assert(ticks@ =~= digits_of(span.ticks()));
            wrap("for _ in 0..", ticks.as_str(), "u128 { app.update(); }")
        },
    }
}

fn push_received(out: &mut Vec<String>, events: &Vec<String>)
    ensures
        final(out).deep_view() == old(out).deep_view() + received_prefix(
            events.deep_view(),
            events.len() as nat,
        ),
{
    let ghost all = events.deep_view();
    let mut i: usize = 0;
    assert(out.deep_view() =~= old(out).deep_view() + received_prefix(all, 0));
    while i < events.len()
        invariant
            i <= events.len(),
            all == events.deep_view(),
            out.deep_view() == old(out).deep_view() + received_prefix(all, i as nat),
        decreases events.len() - i,
    {
        let ghost so_far = out.deep_view();
        let event = events[i].as_str();
        assert(all[i as int] == event@);
        let lookup = wrap("let event_reader = app.world().resource::<Events<", event, ">>();");
        let check = wrap(
            "assert!(!event_reader.is_empty(), \"Event {} should have been received\", stringify!(",
            event,
            "));",
        );
        out.push(lookup);
        out.push(check);
        assert(out.deep_view() =~= so_far + received_statements(event@));
        assert(out.deep_view() =~= old(out).deep_view() + (received_prefix(all, i as nat)
            + received_statements(all[i as int])));
        i += 1;
    }
}

fn push_check(out: &mut Vec<String>, assertion: &Assertion)
    ensures
        final(out).deep_view() == old(out).deep_view() + check_statements(assertion.deep_view()),
{
    match assertion {
        Assertion::ComponentCheck(expr) => {
            out.push(assertion_text(expr));
            assert(out.deep_view() =~= old(out).deep_view() + check_statements(
                assertion.deep_view(),
            ));
        },
        Assertion::EventsReceived(events) => {
            push_received(out, events);
        },
        Assertion::Snapshot(expr) => {
            out.push(wrap("let snapshot_value = ", expr.text.as_str(), ";"));
            out.push(String::from_str("println!(\"Snapshot: {:?}\", snapshot_value);"));
            assert(out.deep_view() =~= old(out).deep_view() + check_statements(
                assertion.deep_view(),
            ));
        },
    }
}

impl TestScenario {
    /// The statements that set up the initial state.
    pub fn generate_setup(&self) -> (r: Vec<String>)
        ensures
            r.deep_view() == setup_statements(self.given.deep_view()),
    {
        let mut out: Vec<String> = Vec::new();
        push_wrapped_each(&mut out, "app.insert_resource(", &self.given.resources, ");");
        push_wrapped_each(&mut out, "app.add_event::<", &self.given.events, ">();");
        push_wrapped_each(&mut out, "app.add_systems(Update, ", &self.given.systems, ");");
        let bound = bind_entities(&self.given.entities);
        push_spawns(&mut out, &bound);
        assert(out.deep_view() =~= setup_statements(self.given.deep_view()));
        out
    }

    /// The statements that replay the actions.
    pub fn generate_actions(&self) -> (r: Vec<String>)
        ensures
            r.deep_view() == action_statements(self.when.deep_view()),
    {
        let mut out: Vec<String> = Vec::new();
        let ghost all = action_statements(self.when.deep_view());
        let mut i: usize = 0;
        assert(out.deep_view() =~= all.take(0));
        while i < self.when.actions.len()
            invariant
                i <= self.when.actions.len(),
                all == action_statements(self.when.deep_view()),
                out.deep_view() == all.take(i as int),
            decreases self.when.actions.len() - i,
        {
            let ghost so_far = out.deep_view();
            let statement = action_text(&self.when.actions[i]);
            assert(self.when.actions.deep_view()[i as int]
                == self.when.actions@[i as int].deep_view());
            out.push(statement);
            assert(out.deep_view() =~= so_far.push(statement@));
            assert(out.deep_view() =~= all.take(i + 1));
            i += 1;
        }
        assert(all.take(self.when.actions.len() as int) =~= all);
        out
    }

    /// The statements that check the assertions.
    pub fn generate_assertions(&self) -> (r: Vec<String>)
        ensures
            r.deep_view() == assertion_statements(self.outcome.deep_view()),
    {
        let mut out: Vec<String> = Vec::new();
        let ghost all = self.outcome.assertions.deep_view();
        let mut i: usize = 0;
        assert(out.deep_view() =~= assertion_prefix(all, 0));
        while i < self.outcome.assertions.len()
            invariant
                i <= self.outcome.assertions.len(),
                all == self.outcome.assertions.deep_view(),
                out.deep_view() == assertion_prefix(all, i as nat),
            decreases self.outcome.assertions.len() - i,
        {
            assert(all[i as int] == self.outcome.assertions@[i as int].deep_view());
            push_check(&mut out, &self.outcome.assertions[i]);
            i += 1;
        }
        out
    }

    /// The statements of the test procedure.
    pub fn statements(&self) -> (r: Vec<String>)
        ensures
            r.deep_view() == scenario_statements(self.deep_view()),
    {
        let mut out: Vec<String> = Vec::new();
        push_harness(&mut out);
        let mut setup = self.generate_setup();
        let mut actions = self.generate_actions();
        let mut assertions = self.generate_assertions();
        let ghost a = out.deep_view();
        let ghost b = setup.deep_view();
        let ghost c = actions.deep_view();
        let ghost d = assertions.deep_view();
        out.append(&mut setup);
        assert(out.deep_view() =~= a + b);
        out.append(&mut actions);
        assert(out.deep_view() =~= a + b + c);
        out.append(&mut assertions);
        assert(out.deep_view() =~= a + b + c + d);
        assert(a =~= harness_statements());
        out
    }

    /// The generated test procedure: a test function named after the
    /// scenario, whose body is the statements of [`scenario_statements`].
    pub fn expand(&self) -> (r: String)
        ensures
            r@ == procedure(self.name@, scenario_statements(self.deep_view())),
    {
        let statements = self.statements();
        write_procedure(self.name.as_str(), &statements)
    }
}

/// What a specification without content means: `Ok` for no tokens at all,
/// [`ErrorKind::UnexpectedToken`] at the first token otherwise.
pub open spec fn nothing_expected(tokens: Seq<Tok>) -> Result<(), Failure> {
    if tokens.len() == 0 {
        Ok(())
    } else {
        Err(Failure::at(ErrorKind::UnexpectedToken, 0))
    }
}

/// A benchmark of a scenario. It has no clauses yet: its specification is
/// empty, and so is the procedure made from it.
#[derive(Clone, Copy, PartialEq, Eq, Structural, Debug)]
pub struct BenchmarkScenario;

impl BenchmarkScenario {
    /// Parses a benchmark: accepts the empty token sequence and nothing else.
    pub fn parse(tokens: &Vec<Token>) -> (r: Result<BenchmarkScenario, ParseError>)
        ensures
            match r {
                Ok(_) => nothing_expected(tokens.deep_view()) is Ok,
                Err(e) => nothing_expected(tokens.deep_view()) == Err::<(), Failure>(e.deep_view()),
            },
    {
        if tokens.len() == 0 {
            Ok(BenchmarkScenario)
        } else {
            Err(ParseError::at(ErrorKind::UnexpectedToken, 0))
        }
    }

    /// The generated procedure: no text at all.
    pub fn expand(&self) -> (r: String)
        ensures
            r@ == Seq::<char>::empty(),
    {
        String::new()
    }
}

/// A property test with invariants. It has no clauses yet: its specification
/// is empty, and so is the procedure made from it.
#[derive(Clone, Copy, PartialEq, Eq, Structural, Debug)]
pub struct PropertyTest;

impl PropertyTest {
    /// Parses a property test: accepts the empty token sequence and nothing
    /// else.
    pub fn parse(tokens: &Vec<Token>) -> (r: Result<PropertyTest, ParseError>)
        ensures
            match r {
                Ok(_) => nothing_expected(tokens.deep_view()) is Ok,
                Err(e) => nothing_expected(tokens.deep_view()) == Err::<(), Failure>(e.deep_view()),
            },
    {
        if tokens.len() == 0 {
            Ok(PropertyTest)
        } else {
            Err(ParseError::at(ErrorKind::UnexpectedToken, 0))
        }
    }

    /// The generated procedure: no text at all.
    pub fn expand(&self) -> (r: String)
        ensures
            r@ == Seq::<char>::empty(),
    {
        String::new()
    }
}

} // verus!

use bevy_test_suite::emit::EntityBinding;
use bevy_test_suite::error::{locate, ErrorKind, Keyword, ParseError};
use bevy_test_suite::lexer::tokenize;
use bevy_test_suite::scenario::{
    bind_entities, parse_entities, parse_fields, parse_given_clause, parse_then_clause,
    parse_when_clause, set_field, Action, Assertion, BenchmarkScenario, EntityDef, FieldInit, GivenClause,
    PropertyTest, TestScenario, ThenClause, WhenClause,
};
use bevy_test_suite::syntax::Expr;
use bevy_test_suite::time::{Decimal, TimeAdvance};
use bevy_test_suite::token::{Delimiter, Token};
use bevy_test_suite::{benchmark_scenario, property_test, test_scenario};

fn expr(text: &str) -> Expr {
    Expr { text: text.to_string() }
}

fn parse(text: &str) -> Result<TestScenario, ParseError> {
    TestScenario::parse(&tokenize(text).unwrap())
}

fn error(kind: ErrorKind, path: &[usize]) -> ParseError {
    ParseError { kind, path: path.to_vec() }
}

fn entity(type_tag: &str, fields: &[(&str, &str)]) -> EntityDef {
    EntityDef {
        type_tag: type_tag.to_string(),
        fields: fields
            .iter()
            .map(|(name, value)| FieldInit { name: name.to_string(), value: expr(value) })
            .collect(),
    }
}

const DAMAGE: &str = "player_takes_damage {
    given: {
        resources: [Time::default()],
        systems: [damage_system],
        events: [DamageEvent, PlayerDeathEvent],
        entities: [Player { health: 100, position: Vec3::ZERO }]
    },
    when: {
        event: DamageEvent { target: entity_0, amount: 30 },
        advance: 1.frame(),
        advance: 2.5.seconds(),
        input: MoveRight,
    },
    then: {
        entity_0.get::<Player>().unwrap().health == 70,
        events_received: [DamageEvent],
        snapshot: world.get(entity_0)
    }
}";

#[test]
fn parses_a_full_scenario() {
    let scenario = parse(DAMAGE).unwrap();
    assert_eq!(
        scenario,
        TestScenario {
            name: "player_takes_damage".to_string(),
            given: GivenClause {
                resources: vec![expr("Time :: default ()")],
                events: vec![expr("DamageEvent"), expr("PlayerDeathEvent")],
                systems: vec![expr("damage_system")],
                entities: vec![entity(
                    "Player",
                    &[("health", "100"), ("position", "Vec3 :: ZERO")]
                )],
            },
            when: WhenClause {
                actions: vec![
                    Action::Event(expr("DamageEvent {target : entity_0 , amount : 30}")),
                    Action::Advance(TimeAdvance::Frames(1)),
                    Action::Advance(TimeAdvance::Seconds(Decimal { mantissa: 25, scale: 1 })),
                    Action::Input(expr("MoveRight")),
                ],
            },
            outcome: ThenClause {
                assertions: vec![
                    Assertion::ComponentCheck(expr(
                        "entity_0 . get ::< Player > () . unwrap () . health == 70"
                    )),
                    Assertion::EventsReceived(vec!["DamageEvent".to_string()]),
                    Assertion::Snapshot(expr("world . get (entity_0)")),
                ],
            },
        }
    );
}

#[test]
fn each_list_of_a_given_clause_is_optional() {
    let scenario = parse("t { given: {}, when: {}, then: {} }").unwrap();
    assert_eq!(
        scenario.given,
        GivenClause { resources: vec![], events: vec![], systems: vec![], entities: vec![] }
    );
    assert_eq!(scenario.when.actions, vec![]);
    assert_eq!(scenario.outcome.assertions, vec![]);
    let scenario = parse("t { given: { systems: [s] }, when: {}, then: {} }").unwrap();
    assert_eq!(scenario.given.systems, vec![expr("s")]);
    assert_eq!(scenario.given.resources, vec![]);
}

#[test]
fn commas_between_clauses_are_optional() {
    let with = parse("t { given: {}, when: {}, then: {} }").unwrap();
    let without = parse("t { given: {} when: {} then: {} }").unwrap();
    let mixed = parse("t { given: {} when: {}, then: {} }").unwrap();
    assert_eq!(with, without);
    assert_eq!(with, mixed);
}

#[test]
fn trailing_commas_in_lists_and_structs_are_tolerated() {
    let given = parse_given_clause(
        &tokenize("resources: [A, B,], entities: [P { x: 1, y: 2, }, Q {},],").unwrap(),
    )
    .unwrap();
    assert_eq!(given.resources, vec![expr("A"), expr("B")]);
    assert_eq!(given.entities, vec![entity("P", &[("x", "1"), ("y", "2")]), entity("Q", &[])]);
}

#[test]
fn a_field_of_a_given_clause_that_comes_again_adds_to_its_list() {
    let given =
        parse_given_clause(&tokenize("events: [A], resources: [R], events: [B, C]").unwrap())
            .unwrap();
    assert_eq!(given.events, vec![expr("A"), expr("B"), expr("C")]);
    assert_eq!(given.resources, vec![expr("R")]);
}

#[test]
fn a_field_that_comes_again_keeps_its_place_and_takes_the_later_value() {
    let fields = parse_fields(&tokenize("b: 2, a: 1, b: 3, c: 4, a: 5, b: 6").unwrap()).unwrap();
    assert_eq!(
        fields,
        vec![
            FieldInit { name: "b".to_string(), value: expr("6") },
            FieldInit { name: "a".to_string(), value: expr("5") },
            FieldInit { name: "c".to_string(), value: expr("4") },
        ]
    );
    let mut fields = vec![];
    set_field(&mut fields, FieldInit { name: "x".to_string(), value: expr("1") });
    set_field(&mut fields, FieldInit { name: "y".to_string(), value: expr("2") });
    set_field(&mut fields, FieldInit { name: "x".to_string(), value: expr("3") });
    assert_eq!(
        fields,
        vec![
            FieldInit { name: "x".to_string(), value: expr("3") },
            FieldInit { name: "y".to_string(), value: expr("2") },
        ]
    );
}

#[test]
fn a_field_written_twice_is_set_once_in_the_record() {
    let scenario =
        parse("t { given: { entities: [P { x: 1, x: 2 }] }, when: {}, then: {} }").unwrap();
    assert_eq!(scenario.given.entities, vec![entity("P", &[("x", "2")])]);
    assert_eq!(
        scenario.generate_setup(),
        vec!["let entity_0 = app.world_mut().spawn(P { x: 2, ..Default::default() }).id();"]
    );
}

#[test]
fn items_without_a_comma_between_them_are_an_error() {
    assert_eq!(
        parse_given_clause(&tokenize("resources: [A B]").unwrap()),
        Err(error(ErrorKind::ExpectedComma, &[2, 1]))
    );
    assert_eq!(
        parse_entities(&tokenize("P { x: 1 } Q { }").unwrap()),
        Err(error(ErrorKind::ExpectedComma, &[2]))
    );
    assert_eq!(
        parse_fields(&tokenize("x: 1 y: 2").unwrap()),
        Err(error(ErrorKind::ExpectedComma, &[3]))
    );
    assert_eq!(
        parse_given_clause(&tokenize("resources: [A] events: [E]").unwrap()),
        Err(error(ErrorKind::ExpectedComma, &[3]))
    );
    assert_eq!(
        parse_when_clause(&tokenize("event: A input: B").unwrap()),
        Err(error(ErrorKind::ExpectedComma, &[3]))
    );
    assert_eq!(
        parse_then_clause(&tokenize("a == b events_received: [E]").unwrap()),
        Err(error(ErrorKind::ExpectedComma, &[4]))
    );
    assert_eq!(
        parse_then_clause(&tokenize("events_received: [E F]").unwrap()),
        Err(error(ErrorKind::ExpectedComma, &[2, 1]))
    );
    assert_eq!(
        parse_then_clause(&tokenize("snapshot: s done").unwrap()),
        Err(error(ErrorKind::ExpectedComma, &[3]))
    );
    assert_eq!(
        parse("t { given: { entities: [P { x: 1 y: 2 }] }, when: {}, then: {} }"),
        Err(error(ErrorKind::ExpectedComma, &[1, 2, 2, 1, 3]))
    );
}

#[test]
fn a_comma_needs_an_item_before_it() {
    assert_eq!(
        parse_given_clause(&tokenize("resources: [A,, B]").unwrap()),
        Err(error(ErrorKind::ExpectedExpression, &[2, 2]))
    );
    assert_eq!(
        parse_given_clause(&tokenize("resources: [, A]").unwrap()),
        Err(error(ErrorKind::ExpectedExpression, &[2, 0]))
    );
    assert_eq!(
        parse_fields(&tokenize(", x: 1").unwrap()),
        Err(error(ErrorKind::ExpectedIdentifier, &[0]))
    );
}

#[test]
fn actions_keep_their_order() {
    let when = parse_when_clause(
        &tokenize("input: A, advance: 2.frames(), event: B, advance: 1.day(), event: C").unwrap(),
    )
    .unwrap();
    assert_eq!(
        when.actions,
        vec![
            Action::Input(expr("A")),
            Action::Advance(TimeAdvance::Frames(2)),
            Action::Event(expr("B")),
            Action::Advance(TimeAdvance::Days(1)),
            Action::Event(expr("C")),
        ]
    );
}

#[test]
fn an_advance_that_is_not_understood_is_one_frame() {
    let when = parse_when_clause(&tokenize("advance: soon, advance: wait(3)").unwrap()).unwrap();
    assert_eq!(
        when.actions,
        vec![Action::Advance(TimeAdvance::Frames(1)), Action::Advance(TimeAdvance::Frames(1))]
    );
}

#[test]
fn the_leading_word_tells_the_kinds_of_assertion_apart() {
    let then = parse_then_clause(
        &tokenize("a == b, events_received: [E, F], snapshot: s, !done, events_received: []")
            .unwrap(),
    )
    .unwrap();
    assert_eq!(
        then.assertions,
        vec![
            Assertion::ComponentCheck(expr("a == b")),
            Assertion::EventsReceived(vec!["E".to_string(), "F".to_string()]),
            Assertion::Snapshot(expr("s")),
            Assertion::ComponentCheck(expr("! done")),
            Assertion::EventsReceived(vec![]),
        ]
    );
}

#[test]
fn swapping_given_and_when_names_given_at_the_when_keyword() {
    assert_eq!(
        parse("t { when: {}, given: {}, then: {} }"),
        Err(error(ErrorKind::ExpectedKeyword(Keyword::Given), &[1, 0]))
    );
}

#[test]
fn swapping_when_and_then_names_when_at_the_then_keyword() {
    assert_eq!(
        parse("t { given: {}, then: {}, when: {} }"),
        Err(error(ErrorKind::ExpectedKeyword(Keyword::When), &[1, 4]))
    );
    assert_eq!(
        parse("t { given: {} then: {} when: {} }"),
        Err(error(ErrorKind::ExpectedKeyword(Keyword::When), &[1, 3]))
    );
}

#[test]
fn swapping_given_and_then_names_given_at_the_then_keyword() {
    assert_eq!(
        parse("t { then: {}, when: {}, given: {} }"),
        Err(error(ErrorKind::ExpectedKeyword(Keyword::Given), &[1, 0]))
    );
}

#[test]
fn a_duplicated_clause_is_an_error() {
    assert_eq!(
        parse("t { given: {}, given: {}, when: {}, then: {} }"),
        Err(error(ErrorKind::ExpectedKeyword(Keyword::When), &[1, 4]))
    );
    assert_eq!(
        parse("t { given: {}, when: {}, then: {}, then: {} }"),
        Err(error(ErrorKind::UnexpectedToken, &[1, 11]))
    );
}

#[test]
fn a_missing_clause_is_an_error() {
    assert_eq!(
        parse("t { given: {}, when: {} }"),
        Err(error(ErrorKind::ExpectedKeyword(Keyword::Then), &[1, 7]))
    );
    assert_eq!(parse("t { }"), Err(error(ErrorKind::ExpectedKeyword(Keyword::Given), &[1, 0])));
}

#[test]
fn the_name_must_be_an_identifier() {
    assert_eq!(
        parse("{ given: {}, when: {}, then: {} }"),
        Err(error(ErrorKind::ExpectedIdentifier, &[0]))
    );
    assert_eq!(
        parse("fn { given: {}, when: {}, then: {} }"),
        Err(error(ErrorKind::ExpectedIdentifier, &[0]))
    );
    assert_eq!(parse(""), Err(error(ErrorKind::ExpectedIdentifier, &[0])));
}

#[test]
fn the_body_must_be_in_braces() {
    assert_eq!(parse("t"), Err(error(ErrorKind::ExpectedBraces, &[1])));
    assert_eq!(
        parse("t ( given: {}, when: {}, then: {} )"),
        Err(error(ErrorKind::ExpectedBraces, &[1]))
    );
}

#[test]
fn nothing_may_follow_the_body_or_the_last_clause() {
    assert_eq!(
        parse("t { given: {}, when: {}, then: {} } ;"),
        Err(error(ErrorKind::UnexpectedToken, &[2]))
    );
    assert_eq!(
        parse("t { given: {}, when: {}, then: {}, }"),
        Err(error(ErrorKind::UnexpectedToken, &[1, 11]))
    );
}

#[test]
fn a_clause_needs_its_colon_and_its_braces() {
    assert_eq!(
        parse("t { given {}, when: {}, then: {} }"),
        Err(error(ErrorKind::ExpectedColon, &[1, 1]))
    );
    assert_eq!(
        parse("t { given: [], when: {}, then: {} }"),
        Err(error(ErrorKind::ExpectedBraces, &[1, 2]))
    );
    assert_eq!(
        parse("t { given: {}, when: {}, then: 1 }"),
        Err(error(ErrorKind::ExpectedBraces, &[1, 10]))
    );
}

#[test]
fn an_unknown_field_of_a_given_clause_is_an_error() {
    assert_eq!(
        parse("t { given: { resources: [], plugins: [] }, when: {}, then: {} }"),
        Err(error(ErrorKind::UnknownField, &[1, 2, 4]))
    );
}

#[test]
fn an_unknown_action_of_a_when_clause_is_an_error() {
    assert_eq!(
        parse("t { given: {}, when: { event: A, wait: 3 }, then: {} }"),
        Err(error(ErrorKind::UnknownAction, &[1, 6, 4]))
    );
}

#[test]
fn errors_inside_lists_are_located_by_their_path() {
    assert_eq!(
        parse("t { given: { resources: [A, ;] }, when: {}, then: {} }"),
        Err(error(ErrorKind::ExpectedExpression, &[1, 2, 2, 2]))
    );
    assert_eq!(
        parse("t { given: { entities: [P { x: 1 }, Q { y 2 }] }, when: {}, then: {} }"),
        Err(error(ErrorKind::ExpectedColon, &[1, 2, 2, 4, 1]))
    );
    assert_eq!(
        parse("t { given: { entities: [P] }, when: {}, then: {} }"),
        Err(error(ErrorKind::ExpectedBraces, &[1, 2, 2, 1]))
    );
    assert_eq!(
        parse("t { given: { entities: [type { }] }, when: {}, then: {} }"),
        Err(error(ErrorKind::ExpectedIdentifier, &[1, 2, 2, 0]))
    );
    assert_eq!(
        parse("t { given: { resources: {} }, when: {}, then: {} }"),
        Err(error(ErrorKind::ExpectedBrackets, &[1, 2, 2]))
    );
    assert_eq!(
        parse("t { given: {}, when: {}, then: { events_received: [A, 1] } }"),
        Err(error(ErrorKind::ExpectedIdentifier, &[1, 10, 2, 2]))
    );
    assert_eq!(
        parse("t { given: {}, when: {}, then: { events_received [A] } }"),
        Err(error(ErrorKind::ExpectedColon, &[1, 10, 1]))
    );
    assert_eq!(
        parse("t { given: {}, when: {}, then: { events_received: A } }"),
        Err(error(ErrorKind::ExpectedBrackets, &[1, 10, 2]))
    );
    assert_eq!(
        parse("t { given: {}, when: {}, then: { snapshot: } }"),
        Err(error(ErrorKind::ExpectedExpression, &[1, 10, 2]))
    );
    assert_eq!(
        parse("t { given: {}, when: { event: }, then: {} }"),
        Err(error(ErrorKind::ExpectedExpression, &[1, 6, 2]))
    );
    assert_eq!(
        parse("t { given: {}, when: { 3: A }, then: {} }"),
        Err(error(ErrorKind::ExpectedIdentifier, &[1, 6, 0]))
    );
    assert_eq!(
        parse("t { given: { resources [A] }, when: {}, then: {} }"),
        Err(error(ErrorKind::ExpectedColon, &[1, 2, 1]))
    );
}

#[test]
fn every_kind_of_error_has_its_message() {
    let message = |kind: ErrorKind| ParseError { kind, path: vec![] }.message();
    assert_eq!(message(ErrorKind::Lexical), "cannot split the text into tokens");
    assert_eq!(message(ErrorKind::ExpectedKeyword(Keyword::Given)), "expected `given`");
    assert_eq!(message(ErrorKind::ExpectedKeyword(Keyword::When)), "expected `when`");
    assert_eq!(message(ErrorKind::ExpectedKeyword(Keyword::Then)), "expected `then`");
    assert_eq!(message(ErrorKind::ExpectedKeyword(Keyword::Setup)), "expected `setup`");
    assert_eq!(message(ErrorKind::ExpectedKeyword(Keyword::Call)), "expected `call`");
    assert_eq!(message(ErrorKind::ExpectedKeyword(Keyword::Expect)), "expected `expect`");
    assert_eq!(message(ErrorKind::ExpectedKeyword(Keyword::Operations)), "expected `operations`");
    assert_eq!(message(ErrorKind::ExpectedIdentifier), "expected identifier");
    assert_eq!(message(ErrorKind::ExpectedColon), "expected `:`");
    assert_eq!(message(ErrorKind::ExpectedEquals), "expected `=`");
    assert_eq!(message(ErrorKind::ExpectedComma), "expected `,`");
    assert_eq!(message(ErrorKind::ExpectedArrow), "expected `=>`");
    assert_eq!(message(ErrorKind::ExpectedBraces), "expected curly braces");
    assert_eq!(message(ErrorKind::ExpectedBrackets), "expected square brackets");
    assert_eq!(message(ErrorKind::ExpectedExpression), "expected an expression");
    assert_eq!(message(ErrorKind::ExpectedInteger), "expected integer literal");
    assert_eq!(message(ErrorKind::ExpectedFunction), "expected a function");
    assert_eq!(message(ErrorKind::UnknownField), "unknown given field");
    assert_eq!(message(ErrorKind::UnknownAction), "unknown when action");
    assert_eq!(message(ErrorKind::UnknownOption), "unknown configuration option");
    assert_eq!(message(ErrorKind::UnexpectedToken), "unexpected token");
}

#[test]
fn an_error_seen_from_outside_gets_a_longer_path() {
    let e = ParseError::at(ErrorKind::ExpectedColon, 3);
    assert_eq!(e, error(ErrorKind::ExpectedColon, &[3]));
    assert_eq!(e.inside(7).inside(1), error(ErrorKind::ExpectedColon, &[1, 7, 3]));
}

#[test]
fn text_that_is_no_token_sequence_is_a_lexical_error() {
    assert_eq!(test_scenario("t { given: {"), Err(error(ErrorKind::Lexical, &[])));
}

#[test]
fn entities_are_bound_to_entity_0_and_so_on_in_order() {
    let entities = vec![
        entity("Player", &[("health", "100")]),
        entity("Enemy", &[]),
        entity("Enemy", &[("damage", "3"), ("speed", "2")]),
    ];
    assert_eq!(
        bind_entities(&entities),
        vec![
            EntityBinding {
                handle: "entity_0".to_string(),
                construction: "Player { health: 100, ..Default::default() }".to_string(),
            },
            EntityBinding {
                handle: "entity_1".to_string(),
                construction: "Enemy { ..Default::default() }".to_string(),
            },
            EntityBinding {
                handle: "entity_2".to_string(),
                construction: "Enemy { damage: 3, speed: 2, ..Default::default() }".to_string(),
            },
        ]
    );
}

#[test]
fn no_entities_give_no_bindings() {
    assert_eq!(bind_entities(&vec![]), vec![]);
}

#[test]
fn twelve_entities_give_the_handles_0_to_11_and_no_others() {
    let entities: Vec<EntityDef> = (0..12).map(|_| entity("E", &[])).collect();
    let handles: Vec<String> = bind_entities(&entities).into_iter().map(|b| b.handle).collect();
    let expected: Vec<String> = (0..12).map(|i| format!("entity_{}", i)).collect();
    assert_eq!(handles, expected);
    for i in 0..handles.len() {
        for j in 0..handles.len() {
            assert_eq!(handles[i] == handles[j], i == j);
        }
    }
}

const DAMAGE_PROCEDURE: &str = "#[test]
fn player_takes_damage() {
    use bevy::prelude::*;
    let mut app = App::new();
    app.add_plugins(MinimalPlugins);
    app.insert_resource(Time :: default ());
    app.add_event::<DamageEvent>();
    app.add_event::<PlayerDeathEvent>();
    app.add_systems(Update, damage_system);
    let entity_0 = app.world_mut().spawn(Player { health: 100, position: Vec3 :: ZERO, ..Default::default() }).id();
    app.world_mut().send_event(DamageEvent {target : entity_0 , amount : 30});
    for _ in 0..1u128 { app.update(); }
    for _ in 0..150u128 { app.update(); }
    app.world_mut().send_event(MoveRight);
    assert!(entity_0 . get ::< Player > () . unwrap () . health == 70, \"Assertion failed: {}\", stringify!(entity_0 . get ::< Player > () . unwrap () . health == 70));
    let event_reader = app.world().resource::<Events<DamageEvent>>();
    assert!(!event_reader.is_empty(), \"Event {} should have been received\", stringify!(DamageEvent));
    let snapshot_value = world . get (entity_0);
    println!(\"Snapshot: {:?}\", snapshot_value);
}
";

#[test]
fn a_scenario_becomes_setup_then_actions_then_assertions() {
    assert_eq!(test_scenario(DAMAGE).unwrap(), DAMAGE_PROCEDURE);
    assert_eq!(parse(DAMAGE).unwrap().expand(), DAMAGE_PROCEDURE);
}

#[test]
fn the_setup_goes_by_kind_whatever_the_order_of_the_fields() {
    let scenario = parse(
        "t { given: { entities: [E {}], systems: [s], events: [V], resources: [R], entities: [F {}] }, when: {}, then: {} }",
    )
    .unwrap();
    assert_eq!(
        scenario.generate_setup(),
        vec![
            "app.insert_resource(R);",
            "app.add_event::<V>();",
            "app.add_systems(Update, s);",
            "let entity_0 = app.world_mut().spawn(E { ..Default::default() }).id();",
            "let entity_1 = app.world_mut().spawn(F { ..Default::default() }).id();",
        ]
    );
}

#[test]
fn each_span_of_time_becomes_its_number_of_ticks() {
    let scenario = parse(
        "t { given: {}, when: { advance: 4.frames(), advance: 1.5.seconds(), advance: 2.days(), advance: 0.frames(), advance: 0.01.seconds() }, then: {} }",
    )
    .unwrap();
    assert_eq!(
        scenario.generate_actions(),
        vec![
            "for _ in 0..4u128 { app.update(); }",
            "for _ in 0..90u128 { app.update(); }",
            "for _ in 0..20u128 { app.update(); }",
            "for _ in 0..0u128 { app.update(); }",
            "for _ in 0..0u128 { app.update(); }",
        ]
    );
}

#[test]
fn an_event_and_an_input_are_sent_without_a_tick() {
    let scenario = parse("t { given: {}, when: { event: A, input: B }, then: {} }").unwrap();
    assert_eq!(
        scenario.generate_actions(),
        vec!["app.world_mut().send_event(A);", "app.world_mut().send_event(B);"]
    );
}

#[test]
fn events_received_checks_each_queue_for_being_not_empty() {
    let scenario =
        parse("t { given: {}, when: {}, then: { events_received: [A, B], events_received: [] } }")
            .unwrap();
    assert_eq!(
        scenario.generate_assertions(),
        vec![
            "let event_reader = app.world().resource::<Events<A>>();",
            "assert!(!event_reader.is_empty(), \"Event {} should have been received\", stringify!(A));",
            "let event_reader = app.world().resource::<Events<B>>();",
            "assert!(!event_reader.is_empty(), \"Event {} should have been received\", stringify!(B));",
        ]
    );
}

#[test]
fn an_empty_scenario_is_a_harness_and_nothing_else() {
    assert_eq!(
        test_scenario("nothing { given: {}, when: {}, then: {} }").unwrap(),
        "#[test]\nfn nothing() {\n    use bevy::prelude::*;\n    let mut app = App::new();\n    app.add_plugins(MinimalPlugins);\n}\n"
    );
}

#[test]
fn compiling_the_same_text_again_gives_the_same_bytes() {
    let first = test_scenario(DAMAGE).unwrap();
    let second = test_scenario(DAMAGE).unwrap();
    assert_eq!(first.as_bytes(), second.as_bytes());
    let parsed = parse(DAMAGE).unwrap();
    assert_eq!(parsed.expand().as_bytes(), parsed.expand().as_bytes());
    assert_eq!(parsed, parse(DAMAGE).unwrap());
    assert_eq!(test_scenario("t { when: {} }"), test_scenario("t { when: {} }"));
}

#[test]
fn layout_of_the_specification_does_not_change_the_procedure() {
    let spread = test_scenario(DAMAGE).unwrap();
    let dense = test_scenario(&DAMAGE.replace('\n', " ").replace("    ", "")).unwrap();
    assert_eq!(spread, dense);
}

// A small stand-in for the harness: one player, a damage system that runs
// each tick, and one queue of events for each registered type.
#[derive(Default)]
struct World {
    health: i64,
    spawned: Vec<String>,
    systems: Vec<String>,
    pending_damage: Vec<i64>,
    damage_events: Option<usize>,
    death_events: Option<usize>,
    ticks: u64,
    checked: Vec<String>,
}

impl World {
    fn update(&mut self) {
        self.ticks += 1;
        if self.systems.iter().any(|s| s == "damage_system") {
            for amount in std::mem::take(&mut self.pending_damage) {
                self.health -= amount;
                if self.health <= 0 {
                    *self.death_events.as_mut().expect("PlayerDeathEvent is not registered") += 1;
                }
            }
        }
    }

    fn check(&mut self, holds: bool, what: &str) -> Result<(), String> {
        if holds {
            self.checked.push(what.to_string());
            Ok(())
        } else {
            Err(what.to_string())
        }
    }

    // Runs one statement; `Err` is the failure of a generated assertion.
    fn run(&mut self, statement: &str) -> Result<(), String> {
        if let Some(rest) = statement.strip_prefix("for _ in 0..") {
            let count: u64 = rest.strip_suffix("u128 { app.update(); }").unwrap().parse().unwrap();
            for _ in 0..count {
                self.update();
            }
            return Ok(());
        }
        if let Some(rest) = statement.strip_prefix("app.world_mut().send_event(DamageEvent {target : entity_0 , amount : ") {
            assert!(self.spawned.contains(&"entity_0".to_string()));
            self.pending_damage.push(rest.strip_suffix("});").unwrap().parse().unwrap());
            *self.damage_events.as_mut().expect("DamageEvent is not registered") += 1;
            return Ok(());
        }
        if let Some(rest) = statement.strip_prefix("let entity_0 = app.world_mut().spawn(Player { health: ") {
            self.health = rest.strip_suffix(", ..Default::default() }).id();").unwrap().parse().unwrap();
            self.spawned.push("entity_0".to_string());
            return Ok(());
        }
        match statement {
            "use bevy::prelude::*;" | "let mut app = App::new();" | "app.add_plugins(MinimalPlugins);" => {}
            "app.add_event::<DamageEvent>();" => self.damage_events = Some(0),
            "app.add_event::<PlayerDeathEvent>();" => self.death_events = Some(0),
            "app.add_systems(Update, damage_system);" => self.systems.push("damage_system".to_string()),
            "assert!(health (entity_0) == 70, \"Assertion failed: {}\", stringify!(health (entity_0) == 70));" => {
                return self.check(self.health == 70, "health == 70");
            }
            "assert!(health (entity_0) <= 0, \"Assertion failed: {}\", stringify!(health (entity_0) <= 0));" => {
                return self.check(self.health <= 0, "health <= 0");
            }
            "let event_reader = app.world().resource::<Events<PlayerDeathEvent>>();"
            | "let event_reader = app.world().resource::<Events<DamageEvent>>();" => {}
            "assert!(!event_reader.is_empty(), \"Event {} should have been received\", stringify!(PlayerDeathEvent));" => {
                return self.check(self.death_events.unwrap() > 0, "PlayerDeathEvent");
            }
            "assert!(!event_reader.is_empty(), \"Event {} should have been received\", stringify!(DamageEvent));" => {
                return self.check(self.damage_events.unwrap() > 0, "DamageEvent");
            }
            other => panic!("the stand-in harness does not know the statement `{}`", other),
        }
        Ok(())
    }
}

// Runs the procedure of a scenario until its end or its first failure.
fn try_scenario(text: &str) -> (World, Result<(), String>) {
    let scenario = parse(text).unwrap();
    let mut world = World::default();
    for statement in scenario.statements() {
        if let Err(failure) = world.run(&statement) {
            return (world, Err(failure));
        }
    }
    (world, Ok(()))
}

fn run_scenario(text: &str) -> World {
    let (world, outcome) = try_scenario(text);
    assert_eq!(outcome, Ok(()));
    world
}

#[test]
fn damage_of_30_leaves_a_player_of_100_with_70() {
    let world = run_scenario(
        "player_takes_damage {
            given: {
                systems: [damage_system],
                events: [DamageEvent, PlayerDeathEvent],
                entities: [Player { health: 100 }]
            },
            when: {
                event: DamageEvent { target: entity_0, amount: 30 },
                advance: 1.frame()
            },
            then: { health(entity_0) == 70 }
        }",
    );
    assert_eq!(world.health, 70);
    assert_eq!(world.ticks, 1);
    assert_eq!(world.checked, vec!["health == 70"]);
    assert_eq!(world.death_events, Some(0));
}

#[test]
fn damage_of_50_kills_a_player_of_20_and_sends_the_death_event() {
    let world = run_scenario(
        "player_dies_from_damage {
            given: {
                systems: [damage_system],
                events: [DamageEvent, PlayerDeathEvent],
                entities: [Player { health: 20 }]
            },
            when: {
                event: DamageEvent { target: entity_0, amount: 50 },
                advance: 1.frame()
            },
            then: {
                health(entity_0) <= 0,
                events_received: [PlayerDeathEvent]
            }
        }",
    );
    assert_eq!(world.health, -30);
    assert!(world.health <= 0);
    assert_eq!(world.death_events, Some(1));
    assert_eq!(world.checked, vec!["health <= 0", "PlayerDeathEvent"]);
}

#[test]
fn one_firing_and_two_firings_both_pass_events_received() {
    let once = "fires_once {
            given: { systems: [damage_system], events: [DamageEvent, PlayerDeathEvent], entities: [Player { health: 100 }] },
            when: { event: DamageEvent { target: entity_0, amount: 1 }, advance: 1.frame() },
            then: { events_received: [DamageEvent] }
        }";
    let twice = "fires_twice {
            given: { systems: [damage_system], events: [DamageEvent, PlayerDeathEvent], entities: [Player { health: 100 }] },
            when: { event: DamageEvent { target: entity_0, amount: 1 }, event: DamageEvent { target: entity_0, amount: 1 }, advance: 1.frame() },
            then: { events_received: [DamageEvent] }
        }";
    let world_once = run_scenario(once);
    let world_twice = run_scenario(twice);
    assert_eq!(world_once.damage_events, Some(1));
    assert_eq!(world_twice.damage_events, Some(2));
    assert_eq!(world_once.checked, vec!["DamageEvent"]);
    assert_eq!(world_twice.checked, vec!["DamageEvent"]);
    assert_eq!(
        parse(once).unwrap().generate_assertions(),
        parse(twice).unwrap().generate_assertions()
    );
}

#[test]
fn events_received_fails_on_an_empty_queue() {
    let (world, outcome) = try_scenario(
        "survives {
            given: { systems: [damage_system], events: [DamageEvent, PlayerDeathEvent], entities: [Player { health: 100 }] },
            when: { event: DamageEvent { target: entity_0, amount: 30 }, advance: 1.frame() },
            then: { events_received: [PlayerDeathEvent], health(entity_0) == 70 }
        }",
    );
    assert_eq!(outcome, Err("PlayerDeathEvent".to_string()));
    assert_eq!(world.checked, Vec::<String>::new());
}

#[test]
fn the_first_failure_ends_the_procedure() {
    let (world, outcome) = try_scenario(
        "fails_early {
            given: { systems: [damage_system], events: [DamageEvent, PlayerDeathEvent], entities: [Player { health: 100 }] },
            when: { event: DamageEvent { target: entity_0, amount: 30 }, advance: 1.frame() },
            then: { events_received: [DamageEvent], health(entity_0) <= 0, health(entity_0) == 70 }
        }",
    );
    assert_eq!(outcome, Err("health <= 0".to_string()));
    assert_eq!(world.checked, vec!["DamageEvent"]);
}

#[test]
fn an_event_alone_advances_no_tick() {
    let world = run_scenario(
        "no_tick {
            given: { systems: [damage_system], events: [DamageEvent, PlayerDeathEvent], entities: [Player { health: 100 }] },
            when: { event: DamageEvent { target: entity_0, amount: 30 } },
            then: { }
        }",
    );
    assert_eq!(world.ticks, 0);
    assert_eq!(world.health, 100);
}

#[test]
fn a_benchmark_has_no_content() {
    assert_eq!(BenchmarkScenario::parse(&vec![]), Ok(BenchmarkScenario));
    assert_eq!(BenchmarkScenario.expand(), "");
    assert_eq!(benchmark_scenario(""), Ok(String::new()));
    assert_eq!(
        benchmark_scenario("world_update { iterations: 100 }"),
        Err(error(ErrorKind::UnexpectedToken, &[0]))
    );
    assert_eq!(benchmark_scenario("{"), Err(error(ErrorKind::Lexical, &[])));
}

#[test]
fn a_property_test_has_no_content() {
    assert_eq!(PropertyTest::parse(&vec![]), Ok(PropertyTest));
    assert_eq!(PropertyTest.expand(), "");
    assert_eq!(property_test("  "), Ok(String::new()));
    assert_eq!(
        property_test("law_invariants { }"),
        Err(error(ErrorKind::UnexpectedToken, &[0]))
    );
}

#[test]
fn a_handle_that_no_entity_has_is_passed_through() {
    let procedure = test_scenario(
        "t { given: { entities: [E {}] }, when: { event: Hit { target: entity_5 } }, then: { alive(entity_7) } }",
    )
    .unwrap();
    assert!(procedure.contains("let entity_0 = "));
    assert!(!procedure.contains("let entity_5"));
    assert!(procedure.contains("app.world_mut().send_event(Hit {target : entity_5});"));
    assert!(procedure.contains("assert!(alive (entity_7), "));
}

#[test]
fn tokens_made_by_hand_parse_like_tokens_read_from_text() {
    let word = |text: &str| Token::Ident(text.to_string());
    let clause = |keyword: &str, content: Vec<Token>| {
        vec![word(keyword), Token::Punct(':', false), Token::Group(Delimiter::Brace, content)]
    };
    let mut body = clause(
        "given",
        vec![
            word("systems"),
            Token::Punct(':', false),
            Token::Group(Delimiter::Bracket, vec![word("tick")]),
        ],
    );
    body.extend(clause("when", vec![]));
    body.push(Token::Punct(',', false));
    body.extend(clause("then", vec![word("done")]));
    let tokens = vec![word("by_hand"), Token::Group(Delimiter::Brace, body)];
    assert_eq!(
        TestScenario::parse(&tokens),
        parse("by_hand { given: { systems: [tick] } when: {}, then: { done } }")
    );
    assert_eq!(TestScenario::parse(&tokens).unwrap().given.systems, vec![expr("tick")]);
}

#[test]
fn an_error_names_what_was_expected_and_what_was_found() {
    let describe = |text: &str| {
        let tokens = tokenize(text).unwrap();
        TestScenario::parse(&tokens).unwrap_err().describe(&tokens)
    };
    assert_eq!(
        describe("t { when: {}, given: {}, then: {} }"),
        "expected `given`, found `when`"
    );
    assert_eq!(
        describe("t { given: {}, then: {}, when: {} }"),
        "expected `when`, found `then`"
    );
    assert_eq!(
        describe("t { given: { plugins: [] }, when: {}, then: {} }"),
        "unknown given field, found `plugins`"
    );
    assert_eq!(
        describe("t { given: { resources: (A, B) }, when: {}, then: {} }"),
        "expected square brackets, found `(A , B)`"
    );
    assert_eq!(
        describe("t { given: {}, when: {} }"),
        "expected `then`, found the end of the input"
    );
    assert_eq!(describe("t"), "expected curly braces, found the end of the input");
    assert_eq!(
        describe("t { given: {}, when: {}, then: {} } + 1"),
        "unexpected token, found `+`"
    );
    assert_eq!(
        describe("t { given: {}, when: { event: \"a\" ; }, then: {} }"),
        "expected `,`, found `;`"
    );
    assert_eq!(
        describe("t { given: { resources: [A B] }, when: {}, then: {} }"),
        "expected `,`, found `B`"
    );
    assert_eq!(
        test_scenario("t {").unwrap_err().describe(&vec![]),
        "cannot split the text into tokens"
    );
}

#[test]
fn locate_follows_a_path_into_the_groups() {
    let tokens = tokenize("a { b [ c d ] } e").unwrap();
    let at = |path: &[usize]| locate(&tokens, &path.to_vec());
    assert_eq!(at(&[0]), Some(&Token::Ident("a".to_string())));
    assert_eq!(at(&[2]), Some(&Token::Ident("e".to_string())));
    assert_eq!(at(&[1, 0]), Some(&Token::Ident("b".to_string())));
    assert_eq!(at(&[1, 1, 1]), Some(&Token::Ident("d".to_string())));
    assert_eq!(at(&[1, 1]).map(|t| matches!(t, Token::Group(Delimiter::Bracket, _))), Some(true));
    assert_eq!(at(&[]), None);
    assert_eq!(at(&[3]), None);
    assert_eq!(at(&[0, 0]), None);
    assert_eq!(at(&[1, 2]), None);
    assert_eq!(at(&[1, 1, 2]), None);
    assert_eq!(at(&[1, 1, 0, 0]), None);
}

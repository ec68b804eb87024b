use bevy_test_suite::error::{ErrorKind, Keyword, ParseError};
use bevy_test_suite::lexer::tokenize;
use bevy_test_suite::syntax::Expr;
use bevy_test_suite::system::{
    parse_setup_block, parse_system_call, EntitySetup, ExpectBlock, SetupBlock, SystemCall,
    SystemTest,
};
use bevy_test_suite::test_system;

fn expr(text: &str) -> Expr {
    Expr { text: text.to_string() }
}

fn parse(text: &str) -> Result<SystemTest, ParseError> {
    SystemTest::parse(&tokenize(text).unwrap())
}

fn error(kind: ErrorKind, path: &[usize]) -> ParseError {
    ParseError { kind, path: path.to_vec() }
}

fn named(var_name: &str, components: &str) -> EntitySetup {
    EntitySetup { var_name: var_name.to_string(), components: expr(components) }
}

const MOVEMENT: &str = "test_basic_movement {
    setup: {
        resources: [Time::default(), GameSpeed(1.0)],
        events: [Moved],
        player: (Position(Vec3::ZERO), Velocity(Vec3::X * 10.0))
    },
    call: movement_system,
    expect: {
        app.world().entity(player).get::<Position>().unwrap().0.x > 0.0
    }
}";

#[test]
fn parses_a_full_system_test() {
    assert_eq!(
        parse(MOVEMENT).unwrap(),
        SystemTest {
            name: "test_basic_movement".to_string(),
            setup: SetupBlock {
                resources: vec![expr("Time :: default ()"), expr("GameSpeed (1.0)")],
                entities: vec![named(
                    "player",
                    "(Position (Vec3 :: ZERO) , Velocity (Vec3 :: X * 10.0))"
                )],
                events: vec![expr("Moved")],
            },
            call: SystemCall { system: expr("movement_system"), params: None },
            expect: ExpectBlock {
                assertions: vec![expr(
                    "app . world () . entity (player) . get ::< Position > () . unwrap () . 0 . x > 0.0"
                )],
            },
        }
    );
}

#[test]
fn a_system_test_becomes_setup_system_one_tick_and_checks() {
    assert_eq!(
        test_system(MOVEMENT).unwrap(),
        "#[test]
fn test_basic_movement() {
    use bevy::prelude::*;
    let mut app = App::new();
    app.add_plugins(MinimalPlugins);
    app.insert_resource(Time :: default ());
    app.insert_resource(GameSpeed (1.0));
    app.add_event::<Moved>();
    let player = app.world_mut().spawn((Position (Vec3 :: ZERO) , Velocity (Vec3 :: X * 10.0))).id();
    app.add_systems(Update, movement_system);
    app.update();
    assert!(app . world () . entity (player) . get ::< Position > () . unwrap () . 0 . x > 0.0, \"Assertion failed: {}\", stringify!(app . world () . entity (player) . get ::< Position > () . unwrap () . 0 . x > 0.0));
}
"
    );
}

#[test]
fn the_call_may_be_followed_by_a_comma_and_the_expect_clause() {
    let test = parse("t { setup: {}, call: sys, expect: {} }").unwrap();
    assert_eq!(test.call, SystemCall { system: expr("sys"), params: None });
}

#[test]
fn the_call_may_be_followed_by_the_expect_clause_at_once() {
    let test = parse("t { setup: {} call: sys expect: {} }").unwrap();
    assert_eq!(test.call, SystemCall { system: expr("sys"), params: None });
}

#[test]
fn a_second_callable_is_piped_into() {
    let with_comma = parse("t { setup: {}, call: first, second, expect: {} }").unwrap();
    let without = parse("t { setup: {}, call: first, second expect: {} }").unwrap();
    assert_eq!(with_comma.call, SystemCall { system: expr("first"), params: Some(expr("second")) });
    assert_eq!(with_comma, without);
    assert_eq!(with_comma.generate_system_call(), "app.add_systems(Update, first.pipe(second));");
}

#[test]
fn a_second_callable_may_be_named_expect() {
    let test = parse("t { setup: {}, call: first, expect, expect: {} }").unwrap();
    assert_eq!(test.call, SystemCall { system: expr("first"), params: Some(expr("expect")) });
}

#[test]
fn parse_system_call_says_where_the_clause_ends() {
    let tokens = tokenize("x call: a, b, expect: {}").unwrap();
    assert_eq!(
        parse_system_call(&tokens, 1),
        Ok((SystemCall { system: expr("a"), params: Some(expr("b")) }, 6))
    );
    let tokens = tokenize("call: a,").unwrap();
    assert_eq!(parse_system_call(&tokens, 0), Ok((SystemCall { system: expr("a"), params: None }, 4)));
    let tokens = tokenize("call: a").unwrap();
    assert_eq!(parse_system_call(&tokens, 0), Ok((SystemCall { system: expr("a"), params: None }, 3)));
    let tokens = tokenize("call: a, ;").unwrap();
    assert_eq!(parse_system_call(&tokens, 0), Err(error(ErrorKind::ExpectedExpression, &[4])));
    let tokens = tokenize("call: ").unwrap();
    assert_eq!(parse_system_call(&tokens, 0), Err(error(ErrorKind::ExpectedExpression, &[2])));
    let tokens = tokenize("call a").unwrap();
    assert_eq!(parse_system_call(&tokens, 0), Err(error(ErrorKind::ExpectedColon, &[1])));
    let tokens = tokenize("calls: a").unwrap();
    assert_eq!(
        parse_system_call(&tokens, 0),
        Err(error(ErrorKind::ExpectedKeyword(Keyword::Call), &[0]))
    );
}

#[test]
fn setup_entries_keep_their_order_within_each_kind() {
    let setup = parse_setup_block(
        &tokenize("b: B, resources: [R], a: A, events: [E], resources: [S], events: [F]").unwrap(),
    )
    .unwrap();
    assert_eq!(
        setup,
        SetupBlock {
            resources: vec![expr("R"), expr("S")],
            entities: vec![named("b", "B"), named("a", "A")],
            events: vec![expr("E"), expr("F")],
        }
    );
}

#[test]
fn setup_entries_are_separated_by_commas() {
    let setup = parse_setup_block(&tokenize("a: A, b: B,").unwrap()).unwrap();
    assert_eq!(setup.entities, vec![named("a", "A"), named("b", "B")]);
    assert_eq!(
        parse_setup_block(&tokenize("a: A b: B").unwrap()),
        Err(error(ErrorKind::ExpectedComma, &[3]))
    );
    assert_eq!(
        parse_setup_block(&tokenize("resources: [R] a: A").unwrap()),
        Err(error(ErrorKind::ExpectedComma, &[3]))
    );
    assert_eq!(
        parse_setup_block(&tokenize("a: A,, b: B").unwrap()),
        Err(error(ErrorKind::ExpectedIdentifier, &[4]))
    );
    assert_eq!(
        parse_setup_block(&tokenize(", a: A").unwrap()),
        Err(error(ErrorKind::ExpectedIdentifier, &[0]))
    );
    assert_eq!(
        parse("t { setup: {}, call: s, expect: { a b } }"),
        Err(error(ErrorKind::ExpectedComma, &[1, 10, 1]))
    );
}

#[test]
fn a_setup_entry_must_start_with_an_identifier() {
    assert_eq!(
        parse("t { setup: { 42 }, call: s, expect: {} }"),
        Err(error(ErrorKind::ExpectedIdentifier, &[1, 2, 0]))
    );
    assert_eq!(
        parse("t { setup: { a: A, type: B }, call: s, expect: {} }"),
        Err(error(ErrorKind::ExpectedIdentifier, &[1, 2, 4]))
    );
}

#[test]
fn errors_in_a_setup_clause() {
    assert_eq!(
        parse("t { setup: { a A }, call: s, expect: {} }"),
        Err(error(ErrorKind::ExpectedColon, &[1, 2, 1]))
    );
    assert_eq!(
        parse("t { setup: { a: }, call: s, expect: {} }"),
        Err(error(ErrorKind::ExpectedExpression, &[1, 2, 2]))
    );
    assert_eq!(
        parse("t { setup: { resources: R }, call: s, expect: {} }"),
        Err(error(ErrorKind::ExpectedBrackets, &[1, 2, 2]))
    );
    assert_eq!(
        parse("t { setup: { events: [E, ;] }, call: s, expect: {} }"),
        Err(error(ErrorKind::ExpectedExpression, &[1, 2, 2, 2]))
    );
}

#[test]
fn swapping_setup_and_call_names_setup_at_the_call_keyword() {
    assert_eq!(
        parse("t { call: s, setup: {}, expect: {} }"),
        Err(error(ErrorKind::ExpectedKeyword(Keyword::Setup), &[1, 0]))
    );
}

#[test]
fn swapping_call_and_expect_names_call_at_the_expect_keyword() {
    assert_eq!(
        parse("t { setup: {}, expect: {}, call: s }"),
        Err(error(ErrorKind::ExpectedKeyword(Keyword::Call), &[1, 4]))
    );
}

#[test]
fn swapping_setup_and_expect_names_setup_at_the_expect_keyword() {
    assert_eq!(
        parse("t { expect: {}, call: s, setup: {} }"),
        Err(error(ErrorKind::ExpectedKeyword(Keyword::Setup), &[1, 0]))
    );
}

#[test]
fn a_missing_expect_clause_is_an_error() {
    assert_eq!(
        parse("t { setup: {}, call: s }"),
        Err(error(ErrorKind::ExpectedKeyword(Keyword::Expect), &[1, 7]))
    );
    assert_eq!(
        parse("t { setup: {}, call: s, }"),
        Err(error(ErrorKind::ExpectedKeyword(Keyword::Expect), &[1, 8]))
    );
}

#[test]
fn nothing_may_follow_the_expect_clause() {
    assert_eq!(
        parse("t { setup: {}, call: s, expect: {}, }"),
        Err(error(ErrorKind::UnexpectedToken, &[1, 11]))
    );
    assert_eq!(
        parse("t { setup: {}, call: s, expect: {} } t"),
        Err(error(ErrorKind::UnexpectedToken, &[2]))
    );
}

#[test]
fn expectations_are_checked_in_their_order() {
    let test = parse("t { setup: {}, call: s, expect: { a > 1, b, c == d, } }").unwrap();
    assert_eq!(
        test.generate_assertions(),
        vec![
            "assert!(a > 1, \"Assertion failed: {}\", stringify!(a > 1));",
            "assert!(b, \"Assertion failed: {}\", stringify!(b));",
            "assert!(c == d, \"Assertion failed: {}\", stringify!(c == d));",
        ]
    );
    assert_eq!(
        parse("t { setup: {}, call: s, expect: { a, ; } }"),
        Err(error(ErrorKind::ExpectedExpression, &[1, 10, 2]))
    );
}

#[test]
fn the_procedure_runs_exactly_one_tick_between_system_and_checks() {
    let test = parse("t { setup: { e: E }, call: s, expect: { ok } }").unwrap();
    assert_eq!(
        test.statements(),
        vec![
            "use bevy::prelude::*;",
            "let mut app = App::new();",
            "app.add_plugins(MinimalPlugins);",
            "let e = app.world_mut().spawn(E).id();",
            "app.add_systems(Update, s);",
            "app.update();",
            "assert!(ok, \"Assertion failed: {}\", stringify!(ok));",
        ]
    );
    assert_eq!(test.generate_setup(), vec!["let e = app.world_mut().spawn(E).id();"]);
}

#[test]
fn compiling_a_system_test_again_gives_the_same_bytes() {
    assert_eq!(test_system(MOVEMENT).unwrap().as_bytes(), test_system(MOVEMENT).unwrap().as_bytes());
    assert_eq!(test_system("t {"), Err(error(ErrorKind::Lexical, &[])));
}

use bevy_test_suite::attribute::{
    expand_bevy_test, generate_setup, generate_timeout, parse_config, text_contains, Parameter,
    TestConfig, TestFunction,
};
use bevy_test_suite::bevy_test;
use bevy_test_suite::error::{ErrorKind, ParseError};
use bevy_test_suite::lexer::tokenize;
use bevy_test_suite::syntax::Expr;

fn expr(text: &str) -> Expr {
    Expr { text: text.to_string() }
}

fn config(text: &str) -> Result<TestConfig, ParseError> {
    parse_config(&tokenize(text).unwrap())
}

fn error(kind: ErrorKind, path: &[usize]) -> ParseError {
    ParseError { kind, path: path.to_vec() }
}

#[test]
fn the_default_configuration_sets_nothing() {
    assert_eq!(
        TestConfig::default(),
        TestConfig { headless: false, plugins: vec![], timeout_ms: None }
    );
    assert_eq!(config(""), Ok(TestConfig::default()));
}

#[test]
fn the_three_options() {
    assert_eq!(
        config("headless, plugins = [PhysicsPlugin, AudioPlugin::default()], timeout = 5000"),
        Ok(TestConfig {
            headless: true,
            plugins: vec![expr("PhysicsPlugin"), expr("AudioPlugin :: default ()")],
            timeout_ms: Some(5000),
        })
    );
    assert_eq!(config("headless").unwrap().headless, true);
    assert_eq!(config("timeout = 0x10").unwrap().timeout_ms, Some(16));
    assert_eq!(config("timeout = 1_000u64,").unwrap().timeout_ms, Some(1000));
    assert_eq!(
        config("timeout = 18446744073709551615").unwrap().timeout_ms,
        Some(u64::MAX)
    );
}

#[test]
fn an_option_that_comes_again_adds_plugins_or_replaces_the_timeout() {
    assert_eq!(
        config("plugins = [A], timeout = 1, plugins = [B], timeout = 2,"),
        Ok(TestConfig { headless: false, plugins: vec![expr("A"), expr("B")], timeout_ms: Some(2) })
    );
}

#[test]
fn errors_in_a_configuration() {
    assert_eq!(config("verbose"), Err(error(ErrorKind::UnknownOption, &[0])));
    assert_eq!(config("headless timeout = 1"), Err(error(ErrorKind::ExpectedComma, &[1])));
    assert_eq!(config("plugins = [A B]"), Err(error(ErrorKind::ExpectedComma, &[2, 1])));
    assert_eq!(config("timeout = 1 headless"), Err(error(ErrorKind::ExpectedComma, &[3])));
    assert_eq!(config("headless, 3"), Err(error(ErrorKind::ExpectedIdentifier, &[2])));
    assert_eq!(config("plugins [A]"), Err(error(ErrorKind::ExpectedEquals, &[1])));
    assert_eq!(config("plugins = A"), Err(error(ErrorKind::ExpectedBrackets, &[2])));
    assert_eq!(config("plugins = [;]"), Err(error(ErrorKind::ExpectedExpression, &[2, 0])));
    assert_eq!(config("timeout 5"), Err(error(ErrorKind::ExpectedEquals, &[1])));
    assert_eq!(config("timeout = five"), Err(error(ErrorKind::ExpectedInteger, &[2])));
    assert_eq!(config("timeout = 2.5"), Err(error(ErrorKind::ExpectedInteger, &[2])));
    assert_eq!(config("timeout = -5"), Err(error(ErrorKind::ExpectedInteger, &[2])));
    assert_eq!(config("timeout = \"5\""), Err(error(ErrorKind::ExpectedInteger, &[2])));
    assert_eq!(config("timeout ="), Err(error(ErrorKind::ExpectedInteger, &[2])));
    assert_eq!(
        config("timeout = 18446744073709551616"),
        Err(error(ErrorKind::ExpectedInteger, &[2]))
    );
}

#[test]
fn text_contains_finds_a_word_anywhere() {
    assert!(text_contains("app : & mut App", "App"));
    assert!(text_contains("App", "App"));
    assert!(text_contains("x : TestApp", "App"));
    assert!(text_contains("myApplication : u8", "App"));
    assert!(text_contains("anything", ""));
    assert!(text_contains("", ""));
    assert!(!text_contains("app : & mut World", "App"));
    assert!(!text_contains("Ap", "App"));
    assert!(!text_contains("", "App"));
    assert!(!text_contains("A p p", "App"));
    assert!(text_contains("ééApp", "App"));
}

#[test]
fn the_setup_adds_the_configured_plugins_after_the_minimal_ones() {
    assert_eq!(
        generate_setup(&TestConfig::default()),
        vec![
            "let mut app = bevy::app::App::new();",
            "app.add_plugins(bevy::app::MinimalPlugins);",
            "app.insert_resource(bevy::time::Time::default());",
            "app",
        ]
    );
    assert_eq!(
        generate_setup(&config("plugins = [A, B]").unwrap()),
        vec![
            "let mut app = bevy::app::App::new();",
            "app.add_plugins(bevy::app::MinimalPlugins);",
            "app.add_plugins(A);",
            "app.add_plugins(B);",
            "app.insert_resource(bevy::time::Time::default());",
            "app",
        ]
    );
}

#[test]
fn the_timeout_is_named_only_where_there_is_one() {
    assert_eq!(generate_timeout(&TestConfig::default()), Vec::<String>::new());
    assert_eq!(
        generate_timeout(&config("timeout = 250").unwrap()),
        vec!["let _timeout = std::time::Duration::from_millis(250);"]
    );
}

#[test]
fn a_function_that_takes_the_harness_is_called_with_it() {
    let function = TestFunction {
        name: "moves".to_string(),
        params: vec![Parameter::Typed("app : & mut TestApp".to_string())],
        body: "{ app . update () ; }".to_string(),
    };
    assert_eq!(
        expand_bevy_test(&TestConfig::default(), &function),
        "#[test]
fn moves() {
    let mut app = { let mut app = bevy::app::App::new(); app.add_plugins(bevy::app::MinimalPlugins); app.insert_resource(bevy::time::Time::default()); app };
    let test_fn = |app: &mut bevy::app::App| { { app . update () ; } };
    test_fn(&mut app);
}
"
    );
}

#[test]
fn a_function_that_takes_nothing_runs_beside_the_harness() {
    let function = TestFunction {
        name: "adds".to_string(),
        params: vec![],
        body: "{ assert_eq ! (2 + 2 , 4) ; }".to_string(),
    };
    assert_eq!(
        expand_bevy_test(&config("timeout = 10").unwrap(), &function),
        "#[test]
fn adds() {
    let _timeout = std::time::Duration::from_millis(10);
    let mut app = { let mut app = bevy::app::App::new(); app.add_plugins(bevy::app::MinimalPlugins); app.insert_resource(bevy::time::Time::default()); app };
    thread_local! { static TEST_APP: std::cell::RefCell<Option<bevy::app::App>> = std::cell::RefCell::new(None); }
    TEST_APP.with(|a| { *a.borrow_mut() = Some(app); });
    { assert_eq ! (2 + 2 , 4) ; }
    TEST_APP.with(|a| { *a.borrow_mut() = None; });
}
"
    );
}

#[test]
fn only_a_typed_parameter_can_mention_the_harness() {
    let function = |params: Vec<Parameter>| TestFunction {
        name: "f".to_string(),
        params,
        body: "{ }".to_string(),
    };
    let called = |f: &TestFunction| {
        expand_bevy_test(&TestConfig::default(), f).contains("test_fn(&mut app);")
    };
    assert!(!called(&function(vec![])));
    assert!(!called(&function(vec![Parameter::Receiver])));
    assert!(!called(&function(vec![Parameter::Typed("world : & World".to_string())])));
    assert!(called(&function(vec![
        Parameter::Typed("world : & World".to_string()),
        Parameter::Receiver,
        Parameter::Typed("app : & mut App".to_string()),
    ])));
}

#[test]
fn bevy_test_reads_the_function_and_the_arguments() {
    let procedure = bevy_test(
        "headless, timeout = 100",
        "fn test_player_movement(app: &mut TestApp) { let player = app.spawn(Player::default()); }",
    )
    .unwrap();
    assert!(procedure.starts_with("#[test]\nfn test_player_movement() {\n    let _timeout = std::time::Duration::from_millis(100);\n"));
    assert!(procedure.contains("    test_fn(&mut app);\n"));
    assert!(procedure.contains("let test_fn = |app: &mut bevy::app::App| { {"));
    assert!(procedure.contains("Player"));
    assert!(procedure.ends_with("}\n"));

    let simple = bevy_test("", "fn test_simple() { assert_eq!(2 + 2, 4); }").unwrap();
    assert!(simple.starts_with("#[test]\nfn test_simple() {\n    let mut app = { "));
    assert!(simple.contains("TEST_APP.with(|a| { *a.borrow_mut() = Some(app); });"));
    assert!(!simple.contains("test_fn"));
}

#[test]
fn bevy_test_refuses_what_is_no_function_before_it_reads_the_arguments() {
    assert_eq!(bevy_test("", "struct S;"), Err(error(ErrorKind::ExpectedFunction, &[])));
    assert_eq!(bevy_test("verbose", "let x = 1;"), Err(error(ErrorKind::ExpectedFunction, &[])));
    assert_eq!(bevy_test("verbose", "fn f() {}"), Err(error(ErrorKind::UnknownOption, &[0])));
    assert_eq!(bevy_test("(", "fn f() {}"), Err(error(ErrorKind::Lexical, &[])));
}

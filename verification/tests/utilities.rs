use bevy_test_suite::assertions::{generate_assertions, ASSERTIONS};
use bevy_test_suite::attribute::{generate_test_helpers, TEST_HELPERS};
use bevy_test_suite::bevy_test_utils;
use bevy_test_suite::builders::{
    generate_fixtures, generate_mock_input, generate_mock_world, FIXTURES, MOCK_INPUT, MOCK_WORLD,
};
use bevy_test_suite::lexer::tokenize;
use bevy_test_suite::token::Token;

fn words(text: &str) -> Vec<String> {
    fn collect(tokens: &[Token], out: &mut Vec<String>) {
        for token in tokens {
            match token {
                Token::Ident(word) => out.push(word.clone()),
                Token::Group(_, inner) => collect(inner, out),
                _ => {}
            }
        }
    }
    let mut out = Vec::new();
    collect(&tokenize(text).unwrap(), &mut out);
    out
}

fn has(text: &str, word: &str) -> bool {
    words(text).iter().any(|w| w == word)
}

#[test]
fn the_mock_world_builder_has_its_methods() {
    let text = generate_mock_world();
    assert_eq!(text, MOCK_WORLD);
    for word in ["MockWorld", "new", "with_entities", "with_random_components", "with_resource", "with_system", "build"] {
        assert!(has(&text, word), "{} is missing", word);
    }
    assert!(text.starts_with("/// Builder for creating test worlds with entities and components\npub struct MockWorld {"));
}

#[test]
fn the_mock_input_builder_has_its_methods() {
    let text = generate_mock_input();
    assert_eq!(text, MOCK_INPUT);
    for word in ["MockInput", "InputEvent", "press", "release", "mouse_move", "click", "wait", "apply_to"] {
        assert!(has(&text, word), "{} is missing", word);
    }
    assert!(text.contains("let frames = (duration * 60.0) as usize;"));
}

#[test]
fn the_fixtures_have_the_trait_and_the_macro() {
    let text = generate_fixtures();
    assert_eq!(text, FIXTURES);
    assert!(has(&text, "TestFixture"));
    assert!(text.contains("macro_rules! fixture {"));
}

#[test]
fn the_assertions_are_the_eleven_macros() {
    let text = generate_assertions();
    assert_eq!(text, ASSERTIONS);
    let names = [
        "assert_entity_count",
        "assert_component_changed",
        "assert_event_sent",
        "assert_resource_exists",
        "assert_resource_equals",
        "assert_query_empty",
        "assert_system_ran",
        "assert_entity_has",
        "assert_parent_child",
        "assert_component_matches",
        "assert_approx_eq",
    ];
    for name in names {
        assert!(text.contains(&format!("macro_rules! {} {{", name)), "{} is missing", name);
    }
    assert_eq!(text.matches("macro_rules!").count(), names.len());
    assert_eq!(text.matches("#[macro_export]").count(), names.len());
}

#[test]
fn the_helpers_have_the_trait_and_the_query() {
    let text = generate_test_helpers();
    assert_eq!(text, TEST_HELPERS);
    for word in ["TestApp", "TestQuery", "spawn", "advance_time", "advance_frames", "send_event", "query", "resource", "resource_mut", "single", "is_empty", "count", "iter"] {
        assert!(has(&text, word), "{} is missing", word);
    }
}

#[test]
fn the_utilities_are_the_five_pieces_in_order() {
    let all = bevy_test_utils();
    assert_eq!(
        all,
        format!("{}{}{}{}{}", MOCK_WORLD, MOCK_INPUT, FIXTURES, ASSERTIONS, TEST_HELPERS)
    );
    assert!(tokenize(&all).is_ok());
    assert_eq!(bevy_test_utils(), all);
}

use bevy_test_suite::error::{ErrorKind, Keyword, ParseError};
use bevy_test_suite::lexer::tokenize;
use bevy_test_suite::syntax::{
    expression_from_rest, extend_expressions, group, identifier, is_arrow, is_punct, is_reserved_word, is_word,
    parse_clause, parse_clause_header, parse_expression, parse_expression_list,
    parse_expressions, parse_identifiers, parse_named_body, parse_separator, skip_comma, word,
    Expr,
};
use bevy_test_suite::token::{Delimiter, Token};

fn expr(text: &str) -> Expr {
    Expr { text: text.to_string() }
}

fn error(kind: ErrorKind, path: &[usize]) -> ParseError {
    ParseError { kind, path: path.to_vec() }
}

const RESERVED: [&str; 52] = [
    "_", "abstract", "as", "async", "await", "become", "box", "break", "const", "continue",
    "crate", "do", "dyn", "else", "enum", "extern", "false", "final", "fn", "for", "if", "impl",
    "in", "let", "loop", "macro", "match", "mod", "move", "mut", "override", "priv", "pub", "ref",
    "return", "Self", "self", "static", "struct", "super", "trait", "true", "try", "type",
    "typeof", "unsafe", "unsized", "use", "virtual", "where", "while", "yield",
];

#[test]
fn the_reserved_words() {
    for word in RESERVED {
        assert!(is_reserved_word(word), "{} should be reserved", word);
    }
    for word in [
        "given", "when", "then", "setup", "call", "expect", "operations", "resources", "events",
        "systems", "entities", "event", "advance", "input", "events_received", "snapshot",
        "headless", "plugins", "timeout", "union", "auto", "default", "gen", "raw", "__", "_x",
        "selfish", "Type", "TRUE", "r#type", "r#fn", "", "x",
    ] {
        assert!(!is_reserved_word(word), "{} should not be reserved", word);
    }
}

#[test]
fn an_identifier_is_what_syn_reads_as_one() {
    let mut words: Vec<String> = RESERVED.iter().map(|w| w.to_string()).collect();
    for word in ["given", "when", "then", "union", "auto", "default", "gen", "raw", "_x", "x1", "r#type", "Self_", "écran"] {
        words.push(word.to_string());
    }
    for word in &words {
        let tokens = tokenize(word).unwrap();
        assert_eq!(tokens.len(), 1, "{} should be one token", word);
        assert_eq!(
            identifier(&tokens, 0).is_some(),
            syn::parse_str::<syn::Ident>(word).is_ok(),
            "{} is judged otherwise by syn",
            word
        );
        assert_eq!(identifier(&tokens, 0).is_some(), !is_reserved_word(word));
    }
}

#[test]
fn word_reads_any_word_and_identifier_only_what_is_not_reserved() {
    let tokens = tokenize("given fn 3 : { x }").unwrap();
    assert_eq!(word(&tokens, 0), Some(&"given".to_string()));
    assert_eq!(word(&tokens, 1), Some(&"fn".to_string()));
    assert_eq!(word(&tokens, 2), None);
    assert_eq!(word(&tokens, 3), None);
    assert_eq!(word(&tokens, 4), None);
    assert_eq!(word(&tokens, 5), None);
    assert_eq!(word(&tokens, usize::MAX), None);
    assert_eq!(identifier(&tokens, 0), Some(&"given".to_string()));
    assert_eq!(identifier(&tokens, 1), None);
    assert_eq!(identifier(&tokens, 2), None);
    assert_eq!(identifier(&tokens, 9), None);
    assert!(is_word(&tokens, 0, "given"));
    assert!(is_word(&tokens, 1, "fn"));
    assert!(!is_word(&tokens, 0, "give"));
    assert!(!is_word(&tokens, 2, "3"));
    assert!(!is_word(&tokens, 6, "given"));
}

#[test]
fn punctuation_and_arrows() {
    let tokens = tokenize("a : b => c = > d :: e ,").unwrap();
    assert!(is_punct(&tokens, 1, ':'));
    assert!(!is_punct(&tokens, 1, ','));
    assert!(!is_punct(&tokens, 0, 'a'));
    assert!(!is_punct(&tokens, 99, ':'));
    assert!(is_arrow(&tokens, 3));
    assert!(!is_arrow(&tokens, 4));
    assert!(!is_arrow(&tokens, 6));
    assert!(!is_arrow(&tokens, 0));
    assert!(!is_arrow(&tokens, usize::MAX));
    assert!(is_punct(&tokens, 9, ':'));
    assert!(is_punct(&tokens, 10, ':'));
    assert_eq!(skip_comma(&tokens, 12), 13);
    assert_eq!(skip_comma(&tokens, 13), 13);
    assert_eq!(skip_comma(&tokens, 0), 0);
    assert_eq!(skip_comma(&tokens, 1), 1);
    assert_eq!(skip_comma(&tokens, 500), 500);
    assert!(!is_arrow(&tokenize("=").unwrap(), 0));
    assert!(!is_arrow(&tokenize("==").unwrap(), 0));
    assert!(is_arrow(&tokenize("=>").unwrap(), 0));
}

#[test]
fn group_hands_out_the_inner_tokens_of_the_asked_delimiter() {
    let tokens = tokenize("{ a } [ b ] ( c ) d").unwrap();
    assert_eq!(group(&tokens, 0, Delimiter::Brace), Some(&vec![Token::Ident("a".to_string())]));
    assert_eq!(group(&tokens, 0, Delimiter::Bracket), None);
    assert_eq!(group(&tokens, 1, Delimiter::Bracket), Some(&vec![Token::Ident("b".to_string())]));
    assert_eq!(
        group(&tokens, 2, Delimiter::Parenthesis),
        Some(&vec![Token::Ident("c".to_string())])
    );
    assert_eq!(group(&tokens, 2, Delimiter::Invisible), None);
    assert_eq!(group(&tokens, 3, Delimiter::Brace), None);
    assert_eq!(group(&tokens, 4, Delimiter::Brace), None);
}

#[test]
fn an_expression_ends_where_the_expression_parser_stops() {
    let tokens = tokenize("a + b * f(c, d), e").unwrap();
    assert_eq!(parse_expression(&tokens, 0), Some((expr("a + b * f (c , d)"), 6)));
    assert_eq!(parse_expression(&tokens, 2), Some((expr("b * f (c , d)"), 6)));
    assert_eq!(parse_expression(&tokens, 6), None);
    assert_eq!(parse_expression(&tokens, 7), Some((expr("e"), 8)));
    assert_eq!(parse_expression(&tokens, 8), None);
    assert_eq!(parse_expression(&tokens, 9), None);
    assert_eq!(parse_expression(&tokens, usize::MAX), None);
}

#[test]
fn an_expression_may_be_a_struct_literal_a_closure_or_a_block() {
    let tokens = tokenize("P { x: 1 } q").unwrap();
    assert_eq!(parse_expression(&tokens, 0), Some((expr("P {x : 1}"), 2)));
    let tokens = tokenize("|a| a + 1, b").unwrap();
    assert_eq!(parse_expression(&tokens, 0), Some((expr("| a | a + 1"), 6)));
    let tokens = tokenize("{ let x = 1; x } y").unwrap();
    assert_eq!(parse_expression(&tokens, 0), Some((expr("{let x = 1 ; x}"), 1)));
}

#[test]
fn two_expressions_side_by_side_are_told_apart_and_are_no_list() {
    let tokens = tokenize("a b").unwrap();
    assert_eq!(parse_expression(&tokens, 0), Some((expr("a"), 1)));
    assert_eq!(parse_expression(&tokens, 1), Some((expr("b"), 2)));
    assert_eq!(parse_expressions(&tokens), Err(error(ErrorKind::ExpectedComma, &[1])));
}

#[test]
fn behind_an_item_the_list_ends_or_a_comma_stands() {
    let tokens = tokenize("a , b ; c").unwrap();
    assert_eq!(parse_separator(&tokens, 1), Ok(2));
    assert_eq!(parse_separator(&tokens, 5), Ok(5));
    assert_eq!(parse_separator(&tokens, 9), Ok(9));
    assert_eq!(parse_separator(&tokens, 3), Err(error(ErrorKind::ExpectedComma, &[3])));
    assert_eq!(parse_separator(&tokens, 0), Err(error(ErrorKind::ExpectedComma, &[0])));
}

#[test]
fn a_broken_expression_is_no_expression() {
    for text in ["+", "a +", ";", "=> a", "a ? ? (", "let", "f(;)"] {
        match tokenize(text) {
            Ok(tokens) => assert_eq!(parse_expression(&tokens, 0), None, "{}", text),
            Err(e) => assert_eq!(e.kind, ErrorKind::Lexical),
        }
    }
}

#[test]
fn lists_of_expressions_and_identifiers() {
    assert_eq!(parse_expressions(&tokenize("").unwrap()), Ok(vec![]));
    assert_eq!(
        parse_expressions(&tokenize("a, b + 1, c(),").unwrap()),
        Ok(vec![expr("a"), expr("b + 1"), expr("c ()")])
    );
    assert_eq!(
        parse_expressions(&tokenize("a, , b").unwrap()),
        Err(error(ErrorKind::ExpectedExpression, &[2]))
    );
    assert_eq!(
        parse_expressions(&tokenize(", a").unwrap()),
        Err(error(ErrorKind::ExpectedExpression, &[0]))
    );
    assert_eq!(parse_identifiers(&tokenize("").unwrap()), Ok(vec![]));
    assert_eq!(
        parse_identifiers(&tokenize("A, B, C,").unwrap()),
        Ok(vec!["A".to_string(), "B".to_string(), "C".to_string()])
    );
    assert_eq!(
        parse_identifiers(&tokenize("A, B C,").unwrap()),
        Err(error(ErrorKind::ExpectedComma, &[3]))
    );
    assert_eq!(
        parse_identifiers(&tokenize("A,, B").unwrap()),
        Err(error(ErrorKind::ExpectedIdentifier, &[2]))
    );
    assert_eq!(
        parse_identifiers(&tokenize("A, B::C").unwrap()),
        Err(error(ErrorKind::ExpectedComma, &[3]))
    );
    assert_eq!(
        parse_identifiers(&tokenize("A, self").unwrap()),
        Err(error(ErrorKind::ExpectedIdentifier, &[2]))
    );
}

#[test]
fn a_bracketed_list_locates_its_errors_from_outside() {
    let tokens = tokenize("x [a, b] [a, ;] y").unwrap();
    assert_eq!(parse_expression_list(&tokens, 1), Ok(vec![expr("a"), expr("b")]));
    assert_eq!(
        parse_expression_list(&tokens, 2),
        Err(error(ErrorKind::ExpectedExpression, &[2, 2]))
    );
    assert_eq!(parse_expression_list(&tokens, 0), Err(error(ErrorKind::ExpectedBrackets, &[0])));
    assert_eq!(parse_expression_list(&tokens, 4), Err(error(ErrorKind::ExpectedBrackets, &[4])));
}

#[test]
fn extend_expressions_moves_to_the_end() {
    let mut list = vec![expr("a")];
    extend_expressions(&mut list, vec![expr("b"), expr("c")]);
    extend_expressions(&mut list, vec![]);
    assert_eq!(list, vec![expr("a"), expr("b"), expr("c")]);
}

#[test]
fn a_specification_starts_with_a_name_and_a_braced_body() {
    let tokens = tokenize("name { a b } rest").unwrap();
    assert_eq!(
        parse_named_body(&tokens),
        Ok((
            &"name".to_string(),
            &vec![Token::Ident("a".to_string()), Token::Ident("b".to_string())]
        ))
    );
    assert_eq!(
        parse_named_body(&tokenize("name [ ]").unwrap()),
        Err(error(ErrorKind::ExpectedBraces, &[1]))
    );
    assert_eq!(
        parse_named_body(&tokenize("3 { }").unwrap()),
        Err(error(ErrorKind::ExpectedIdentifier, &[0]))
    );
}

#[test]
fn a_clause_opens_with_its_keyword_and_a_colon() {
    let tokens = tokenize("x when: { a } when { } when: [ ]").unwrap();
    assert_eq!(parse_clause_header(&tokens, 1, Keyword::When), Ok(()));
    assert_eq!(
        parse_clause_header(&tokens, 1, Keyword::Given),
        Err(error(ErrorKind::ExpectedKeyword(Keyword::Given), &[1]))
    );
    assert_eq!(
        parse_clause_header(&tokens, 0, Keyword::When),
        Err(error(ErrorKind::ExpectedKeyword(Keyword::When), &[0]))
    );
    assert_eq!(
        parse_clause_header(&tokens, 4, Keyword::When),
        Err(error(ErrorKind::ExpectedColon, &[5]))
    );
    assert_eq!(
        parse_clause_header(&tokens, 99, Keyword::When),
        Err(error(ErrorKind::ExpectedKeyword(Keyword::When), &[99]))
    );
    assert_eq!(parse_clause(&tokens, 1, Keyword::When), Ok(&vec![Token::Ident("a".to_string())]));
    assert_eq!(
        parse_clause(&tokens, 6, Keyword::When),
        Err(error(ErrorKind::ExpectedBraces, &[8]))
    );
    for (keyword, text) in [
        (Keyword::Given, "given"),
        (Keyword::When, "when"),
        (Keyword::Then, "then"),
        (Keyword::Setup, "setup"),
        (Keyword::Call, "call"),
        (Keyword::Expect, "expect"),
        (Keyword::Operations, "operations"),
    ] {
        let tokens = tokenize(&format!("{}: {{ }}", text)).unwrap();
        assert_eq!(parse_clause(&tokens, 0, keyword), Ok(&vec![]));
        assert_eq!(bevy_test_suite::error::keyword_word(keyword), text);
    }
}

#[test]
fn an_expression_is_cut_off_before_the_rest() {
    let tokens = tokenize("a + b , c d").unwrap();
    assert_eq!(expression_from_rest(&tokens, 0, Some(3)), Some((expr("a + b"), 3)));
    assert_eq!(expression_from_rest(&tokens, 0, Some(0)), Some((expr("a + b , c d"), 6)));
    assert_eq!(expression_from_rest(&tokens, 0, Some(5)), Some((expr("a"), 1)));
    assert_eq!(expression_from_rest(&tokens, 2, Some(3)), Some((expr("b"), 3)));
    assert_eq!(expression_from_rest(&tokens, 4, Some(1)), Some((expr("c"), 5)));
    assert_eq!(expression_from_rest(&tokens, 5, Some(0)), Some((expr("d"), 6)));
}

#[test]
fn a_rest_that_leaves_no_token_gives_no_expression() {
    let tokens = tokenize("a + b , c d").unwrap();
    assert_eq!(expression_from_rest(&tokens, 0, None), None);
    assert_eq!(expression_from_rest(&tokens, 0, Some(6)), None);
    assert_eq!(expression_from_rest(&tokens, 0, Some(7)), None);
    assert_eq!(expression_from_rest(&tokens, 0, Some(usize::MAX)), None);
    assert_eq!(expression_from_rest(&tokens, 3, Some(3)), None);
    assert_eq!(expression_from_rest(&tokens, 6, Some(0)), None);
    assert_eq!(expression_from_rest(&tokens, 7, Some(0)), None);
    assert_eq!(expression_from_rest(&tokens, usize::MAX, Some(0)), None);
    assert_eq!(expression_from_rest(&vec![], 0, Some(0)), None);
}

#[test]
fn of_tokens_that_do_not_read_back_the_rest_is_counted_in_their_text() {
    // One token whose text lexes as two: the parser leaves one token tree of
    // the text, which is all that this sequence has.
    let tokens = vec![Token::Ident("a b".to_string())];
    assert_eq!(parse_expression(&tokens, 0), None);
    // Two tokens whose text lexes as four, of which the parser leaves one.
    let tokens = vec![Token::Literal("1 + 2".to_string()), Token::Ident("x".to_string())];
    assert_eq!(parse_expression(&tokens, 0), Some((expr("1 + 2"), 1)));
}

#[test]
fn reading_is_the_same_whatever_was_asked_of_proc_macro2_before() {
    let text = "f(a, b).g::<T>() + [1, 2][0], rest";
    let before = tokenize(text).unwrap();
    let cut = parse_expression(&before, 0);
    proc_macro2::fallback::force();
    assert_eq!(tokenize(text).unwrap(), before);
    assert_eq!(parse_expression(&before, 0), cut);
    proc_macro2::fallback::unforce();
    assert_eq!(tokenize(text).unwrap(), before);
    assert_eq!(parse_expression(&before, 0), cut);
    assert_eq!(cut.map(|(_, next)| next), Some(before.len() - 2));
}

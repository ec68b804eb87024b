use bevy_test_suite::text::{parse_decimal, push_decimal, same_text};

#[test]
fn same_text_compares_character_by_character() {
    assert!(same_text("given", "given"));
    assert!(same_text("", ""));
    assert!(!same_text("given", "giver"));
    assert!(!same_text("given", "give"));
    assert!(!same_text("when", "then"));
    assert!(same_text("grüße", "grüße"));
    assert!(!same_text("grüße", "grusse"));
}

#[test]
fn parse_decimal_reads_digits() {
    assert_eq!(parse_decimal("0", 10), Some(0));
    assert_eq!(parse_decimal("7", 10), Some(7));
    assert_eq!(parse_decimal("10", 10), Some(10));
    assert_eq!(parse_decimal("007", 10), Some(7));
    assert_eq!(parse_decimal("4294967295", 4294967295), Some(4294967295));
    assert_eq!(parse_decimal("18446744073709551615", u64::MAX), Some(u64::MAX));
}

#[test]
fn parse_decimal_refuses_what_is_out_of_range() {
    assert_eq!(parse_decimal("11", 10), None);
    assert_eq!(parse_decimal("4294967296", 4294967295), None);
    assert_eq!(parse_decimal("18446744073709551616", u64::MAX), None);
    assert_eq!(parse_decimal("99999999999999999999999999", u64::MAX), None);
    assert_eq!(parse_decimal("1", 0), None);
    assert_eq!(parse_decimal("0", 0), Some(0));
}

#[test]
fn parse_decimal_refuses_what_is_no_digit_string() {
    assert_eq!(parse_decimal("", 10), None);
    assert_eq!(parse_decimal("+5", 10), None);
    assert_eq!(parse_decimal("-5", 10), None);
    assert_eq!(parse_decimal("5 ", 10), None);
    assert_eq!(parse_decimal("1_0", 10), None);
    assert_eq!(parse_decimal("2.5", 10), None);
    assert_eq!(parse_decimal("x", 10), None);
    assert_eq!(parse_decimal("٣", 10), None);
}

#[test]
fn push_decimal_writes_digits_without_leading_zeros() {
    let mut out = String::from("entity_");
    push_decimal(&mut out, 0);
    assert_eq!(out, "entity_0");
    let mut out = String::new();
    push_decimal(&mut out, 10);
    assert_eq!(out, "10");
    let mut out = String::new();
    push_decimal(&mut out, 1234567890);
    assert_eq!(out, "1234567890");
    let mut out = String::new();
    push_decimal(&mut out, u128::MAX);
    assert_eq!(out, "340282366920938463463374607431768211455");
}

#[test]
fn parse_decimal_reads_back_what_push_decimal_wrote() {
    for n in [0u64, 1, 9, 10, 99, 100, 12345, u32::MAX as u64, u64::MAX] {
        let mut out = String::new();
        push_decimal(&mut out, n as u128);
        assert_eq!(parse_decimal(&out, u64::MAX), Some(n));
    }
}

use discalen::text::{decimal_text, join, parse_u64, push_numeral, push_signed_numeral, same_text};

#[test]
fn decimal_text_writes_numbers_without_leading_zeros() {
    assert_eq!(decimal_text(0), "0");
    assert_eq!(decimal_text(7), "7");
    assert_eq!(decimal_text(10), "10");
    assert_eq!(decimal_text(42), "42");
    assert_eq!(decimal_text(1000), "1000");
    assert_eq!(decimal_text(123456789012345), "123456789012345");
    assert_eq!(decimal_text(u64::MAX), "18446744073709551615");
}

#[test]
fn push_numeral_appends_to_what_is_there() {
    let mut text = String::from("port ");
    push_numeral(&mut text, 5432);
    assert_eq!(text, "port 5432");
}

#[test]
fn push_signed_numeral_writes_the_sign_of_negative_numbers() {
    let mut text = String::new();
    push_signed_numeral(&mut text, -5);
    text.push(' ');
    push_signed_numeral(&mut text, 0);
    text.push(' ');
    push_signed_numeral(&mut text, 2024);
    text.push(' ');
    push_signed_numeral(&mut text, i64::MIN);
    text.push(' ');
    push_signed_numeral(&mut text, i64::MAX);
    assert_eq!(text, "-5 0 2024 -9223372036854775808 9223372036854775807");
}

#[test]
fn parse_u64_reads_what_the_standard_library_reads() {
    for text in [
        "0", "1", "42", "007", "+5", "+0", "18446744073709551615", "18446744073709551616",
        "99999999999999999999", "", "+", "-", "-1", "-0", "++1", "+-1", "1+", "12a", "a12", " 1",
        "1 ", "1_000", "0x10", "١٢", "4.2", "+18446744073709551615", "00000000000000000000001",
    ] {
        assert_eq!(parse_u64(text), text.parse::<u64>().ok(), "text {text:?}");
    }
}

#[test]
fn parse_u64_reads_back_what_decimal_text_wrote() {
    for number in [0, 1, 9, 10, 11, 99, 100, 65535, 4294967296, u64::MAX / 10, u64::MAX] {
        assert_eq!(parse_u64(&decimal_text(number)), Some(number));
    }
}

#[test]
fn same_text_compares_character_by_character() {
    assert!(same_text("", ""));
    assert!(same_text("ping", "ping"));
    assert!(same_text("ðŸŽ‰ é", "ðŸŽ‰ é"));
    assert!(!same_text("ping", "pong"));
    assert!(!same_text("ping", "pin"));
    assert!(!same_text("pin", "ping"));
    assert!(!same_text("", "a"));
    assert!(!same_text("e", "é"));
}

#[test]
fn join_puts_the_separator_between_neighbours() {
    let none: Vec<String> = vec![];
    assert_eq!(join(&none, ", "), "");
    assert_eq!(join(&vec!["a".to_string()], ", "), "a");
    assert_eq!(join(&vec!["a".to_string(), "b".to_string()], ", "), "a, b");
    assert_eq!(
        join(&vec!["a".to_string(), "".to_string(), "c".to_string()], "\n"),
        "a\n\nc"
    );
    assert_eq!(join(&vec!["".to_string(), "".to_string()], "-"), "-");
}

use wrac_plugin::text::{
    contains, decimal_text, ends_with, is_whitespace, join, join2, join3, parse_number, replace,
    same_text, split, starts_with, to_ascii_lowercase, trim, NumberError,
};

#[test]
fn texts_are_compared_and_joined() {
    assert!(same_text("a", "a"));
    assert!(!same_text("a", "b"));
    assert_eq!(join2("a", "b"), "ab");
    assert_eq!(join3("a", "b", "c"), "abc");
    assert!(contains("abc", "bc"));
    assert!(contains("abc", ""));
    assert!(!contains("abc", "d"));
    assert!(starts_with("abc", "ab"));
    assert!(ends_with("abc", "bc"));
    assert_eq!(replace("a.b.c", ".", "::"), "a::b::c");
    assert_eq!(to_ascii_lowercase("AbÉ"), "abÉ");
    assert_eq!(trim(" \t a b\u{3000}\n"), "a b");
    assert!(is_whitespace('\u{a0}'));
    for code in 0..0x3100 {
        if let Some(character) = char::from_u32(code) {
            assert_eq!(is_whitespace(character), character.is_whitespace());
        }
    }
}

#[test]
fn joining_undoes_splitting() {
    let parts = split("a,,b,", ',');
    assert_eq!(parts, ["a", "", "b", ""]);
    assert_eq!(join(&parts, ","), "a,,b,");
    assert_eq!(split("", ','), [""]);
}

#[test]
fn reading_undoes_writing() {
    for number in [0, 7, 10, 4294967295, u64::MAX] {
        assert_eq!(decimal_text(number), number.to_string());
        assert_eq!(parse_number(&decimal_text(number), u64::MAX), Ok(number));
    }
    assert_eq!(parse_number("", 10), Err(NumberError::Empty));
    assert_eq!(parse_number("1x", 10), Err(NumberError::InvalidDigit));
    assert_eq!(parse_number("11", 10), Err(NumberError::TooLarge));
    assert_eq!(NumberError::Empty.message(), "cannot parse integer from empty string");
    assert_eq!(NumberError::InvalidDigit.message(), "invalid digit found in string");
    assert_eq!(NumberError::TooLarge.message(), "number too large to fit in target type");
}

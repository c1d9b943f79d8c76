use script_runner::quoting::{push_literal, python_literal};

#[test]
fn plain_text_is_only_wrapped() {
    assert_eq!(python_literal("abc"), "'abc'");
    assert_eq!(python_literal("/opt/site packages/x-1.0_b"), "'/opt/site packages/x-1.0_b'");
}

#[test]
fn empty_text_is_two_apostrophes() {
    assert_eq!(python_literal(""), "''");
}

#[test]
fn apostrophe_and_backslash_are_escaped() {
    assert_eq!(python_literal("a'b"), "'a\\U00000027b'");
    assert_eq!(python_literal("C:\\lib"), "'C:\\U0000005clib'");
}

#[test]
fn double_quote_stands_for_itself() {
    assert_eq!(python_literal("a\"b"), "'a\"b'");
}

#[test]
fn control_characters_are_escaped() {
    assert_eq!(python_literal("a\nb"), "'a\\U0000000ab'");
    assert_eq!(python_literal("\r\t"), "'\\U0000000d\\U00000009'");
    assert_eq!(python_literal("\0"), "'\\U00000000'");
}

#[test]
fn edges_of_the_plain_range() {
    assert_eq!(python_literal(" "), "' '");
    assert_eq!(python_literal("~"), "'~'");
    assert_eq!(python_literal("\u{1f}"), "'\\U0000001f'");
    assert_eq!(python_literal("\u{7f}"), "'\\U0000007f'");
}

#[test]
fn characters_beyond_ascii_are_escaped() {
    assert_eq!(python_literal("\u{e9}"), "'\\U000000e9'");
    assert_eq!(python_literal("\u{20ac}"), "'\\U000020ac'");
    assert_eq!(python_literal("\u{1f600}"), "'\\U0001f600'");
    assert_eq!(python_literal("\u{10ffff}"), "'\\U0010ffff'");
}

#[test]
fn hexadecimal_digits_are_lower_case() {
    assert_eq!(python_literal("\u{abcde}"), "'\\U000abcde'");
    assert_eq!(python_literal("\u{f9}"), "'\\U000000f9'");
}

#[test]
fn literal_is_ascii_without_line_break_or_zero() {
    let literal = python_literal("a'\\\n\0\u{e9}\u{1f600} z");
    assert!(literal.is_ascii());
    assert!(!literal.contains('\n'));
    assert!(!literal.contains('\0'));
    assert_eq!(literal.matches('\'').count(), 2);
}

#[test]
fn push_literal_appends_to_what_is_there() {
    let mut out = String::from("x = ");
    push_literal(&mut out, "a'b");
    assert_eq!(out, "x = 'a\\U00000027b'");
    push_literal(&mut out, "");
    assert_eq!(out, "x = 'a\\U00000027b'''");
}

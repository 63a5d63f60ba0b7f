use mesh::text::chars_of;
use mesh::text::concat2;
use mesh::text::concat3;
use mesh::text::decimal;
use mesh::text::is_text_before;
use mesh::text::is_whitespace;
use mesh::text::same_text;
use mesh::text::trim;

#[test]
fn texts_are_joined_in_order() {
    assert_eq!(concat2("Call ended: ", "hung up"), "Call ended: hung up");
    assert_eq!(concat3("a", "ü", "c"), "aüc");
    assert_eq!(concat2("", ""), "");
}

#[test]
fn equal_texts_are_the_same() {
    assert!(same_text("grün", "grün"));
    assert!(!same_text("grün", "gruen"));
    assert!(!same_text("abc", "abd"));
    assert!(same_text("", ""));
}

#[test]
fn numbers_are_written_in_decimal() {
    assert_eq!(decimal(0), "0");
    assert_eq!(decimal(7), "7");
    assert_eq!(decimal(10), "10");
    assert_eq!(decimal(4096), "4096");
    assert_eq!(decimal(u64::MAX), "18446744073709551615");
}

#[test]
fn a_text_is_taken_apart_into_characters() {
    assert_eq!(chars_of("aé😀"), vec!['a', 'é', '😀']);
}

#[test]
fn white_space_around_a_text_is_trimmed() {
    assert_eq!(trim("  key one \n"), "key one");
    assert_eq!(trim("\u{3000}x\u{a0}"), "x");
    assert_eq!(trim(" \t\r\n"), "");
    assert_eq!(trim(""), "");
    assert_eq!(trim("plain"), "plain");
}

#[test]
fn texts_are_ordered_byte_by_byte() {
    assert!(is_text_before("Zoo", "apple"));
    assert!(is_text_before("a", "ab"));
    assert!(!is_text_before("ab", "a"));
    assert!(!is_text_before("same", "same"));
    assert!(is_text_before("z", "é"));
    assert!(is_text_before("", "x"));
}

#[test]
fn white_space_is_that_of_unicode() {
    for c in '\0'..=char::MAX {
        assert_eq!(is_whitespace(c), c.is_whitespace(), "{c:?}");
    }
}

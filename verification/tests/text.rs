//! Tests for the text helpers: placeholder substitution and decimal
//! parsing.

use lure::text::{parse_u64_decimal, render_status_text, replace_all};

#[test]
fn replace_substitutes_every_occurrence() {
    assert_eq!(replace_all("a%X%b%X%c", "%X%", "-"), "a-b-c".to_string());
}

#[test]
fn replace_without_occurrence_returns_input() {
    assert_eq!(replace_all("nothing here", "%X%", "-"), "nothing here".to_string());
}

#[test]
fn replace_on_empty_input_is_empty() {
    assert_eq!(replace_all("", "%X%", "-"), String::new());
}

#[test]
fn replace_does_not_rescan_replacement() {
    // The replacement text may itself contain the pattern; it is not
    // replaced again.
    assert_eq!(replace_all("aa", "a", "aa"), "aaaa".to_string());
}

#[test]
fn replace_finds_occurrences_left_to_right() {
    // Occurrences do not overlap: the leftmost wins.
    assert_eq!(replace_all("aaa", "aa", "b"), "ba".to_string());
}

#[test]
fn replace_with_empty_replacement_deletes() {
    assert_eq!(replace_all("one, two, three", ", ", ""), "onetwothree".to_string());
}

#[test]
fn render_substitutes_artist_then_name() {
    assert_eq!(
        render_status_text("🎵 Listening to %NAME% by %ARTIST%", "Signals", "Midnight"),
        "🎵 Listening to Midnight by Signals".to_string()
    );
}

#[test]
fn render_keeps_placeholder_text_in_track_fields() {
    // Substituted values are inserted verbatim; a placeholder-shaped name
    // stays as the artist wrote it.
    assert_eq!(
        render_status_text("%NAME% by %ARTIST%", "a", "%NAME%"),
        "%NAME% by a".to_string()
    );
}

#[test]
fn render_with_artist_value_containing_name_placeholder() {
    // %ARTIST% is substituted first, so a %NAME% inside the artist text is
    // then replaced by the track name.
    assert_eq!(
        render_status_text("%ARTIST%", "x%NAME%y", "n"),
        "xny".to_string()
    );
}

#[test]
fn parse_reads_plain_decimal() {
    assert_eq!(parse_u64_decimal("1500"), Some(1500));
}

#[test]
fn parse_reads_zero() {
    assert_eq!(parse_u64_decimal("0"), Some(0));
    assert_eq!(parse_u64_decimal("000"), Some(0));
}

#[test]
fn parse_rejects_empty() {
    assert_eq!(parse_u64_decimal(""), None);
}

#[test]
fn parse_rejects_non_digits() {
    assert_eq!(parse_u64_decimal("12a4"), None);
    assert_eq!(parse_u64_decimal("-5"), None);
    assert_eq!(parse_u64_decimal(" 5"), None);
    assert_eq!(parse_u64_decimal("5 "), None);
}

#[test]
fn parse_accepts_the_largest_value() {
    assert_eq!(parse_u64_decimal("18446744073709551615"), Some(u64::MAX));
}

#[test]
fn parse_rejects_overflow() {
    assert_eq!(parse_u64_decimal("18446744073709551616"), None);
    assert_eq!(parse_u64_decimal("99999999999999999999999"), None);
}

//! The string utilities: wrapping, chunking, searching, parsing and key
//! binding strings.

use clack::enums::section::Section;
use clack::strutil::{
    parse_dec, replace_all, split_on, split_on_str, str_after_prefix, str_contains,
    str_starts_with, u64_to_dec,
};
use clack::utils::keycode::{parse_key, KeyCode, KeyModifiers};
use clack::utils::string::{date_format, split_text_with_custom_first, split_with_space};

#[test]
fn wrapping_breaks_at_spaces() {
    let r = split_with_space("hello world foo".to_string(), 7, None);
    assert_eq!(r, vec!["hello".to_string(), "world".to_string(), "foo".to_string()]);
}

#[test]
fn wrapping_first_window_is_shortened_by_skip() {
    let r = split_with_space("abcdef abc".to_string(), 8, Some(4));
    // The first window is 4 wide; with no space before the cut it stays at
    // the window edge, and the next chunk begins one past the cut.
    assert_eq!(r, vec!["abcd".to_string(), "f abc".to_string()]);
}

#[test]
fn chunking_uses_the_custom_first_width() {
    let r = split_text_with_custom_first("abcdefgh", 3, 4);
    assert_eq!(r, vec!["abc".to_string(), "defg".to_string(), "h".to_string()]);
}

#[test]
fn chunking_empty_text_yields_nothing() {
    let r = split_text_with_custom_first("", 3, 4);
    assert_eq!(r, Vec::<String>::new());
}

#[test]
fn chunking_zero_first_width_keeps_everything_in_chunks() {
    let r = split_text_with_custom_first("abcde", 0, 2);
    assert_eq!(r, vec!["ab".to_string(), "cd".to_string(), "e".to_string()]);
}

#[test]
fn replace_all_rewrites_every_occurrence() {
    assert_eq!(replace_all("a%x%b%x%", "%x%", "Z"), "aZbZ");
    assert_eq!(replace_all("nothing here", "%x%", "Z"), "nothing here");
    assert_eq!(replace_all("%m%", "%m%", ""), "");
}

#[test]
fn split_on_char_keeps_empty_pieces() {
    assert_eq!(split_on("a&&b", '&'), vec!["a".to_string(), "".to_string(), "b".to_string()]);
    assert_eq!(split_on("", '&'), vec!["".to_string()]);
}

#[test]
fn split_on_string_separator() {
    assert_eq!(
        split_on_str("one<>two<>three", "<>"),
        vec!["one".to_string(), "two".to_string(), "three".to_string()]
    );
    assert_eq!(split_on_str("plain", "<>"), vec!["plain".to_string()]);
}

#[test]
fn substring_search_and_prefixes() {
    assert!(str_contains("hello world", "lo wo"));
    assert!(!str_contains("hello", "world"));
    assert!(str_contains("anything", ""));
    assert!(str_starts_with("move up 3", "move up "));
    assert_eq!(str_after_prefix("move up 3", "move up "), "3");
}

#[test]
fn decimal_parsing_succeeds_exactly_on_fitting_digit_strings() {
    assert_eq!(parse_dec("0"), Some(0));
    assert_eq!(parse_dec("421"), Some(421));
    assert_eq!(parse_dec(""), None);
    assert_eq!(parse_dec("4a1"), None);
    assert_eq!(parse_dec("18446744073709551615"), Some(u64::MAX));
    assert_eq!(parse_dec("18446744073709551616"), None);
}

#[test]
fn decimal_formatting_round_trips() {
    assert_eq!(u64_to_dec(0), "0");
    assert_eq!(u64_to_dec(907), "907");
    assert_eq!(parse_dec(&u64_to_dec(123456789)), Some(123456789));
}

#[test]
fn key_bindings_parse_as_configured() {
    assert_eq!(parse_key("enter"), Some((KeyModifiers::Plain, KeyCode::Enter)));
    assert_eq!(parse_key("q"), Some((KeyModifiers::Plain, KeyCode::Char('q'))));
    assert_eq!(parse_key("ctrl+x"), Some((KeyModifiers::Control, KeyCode::Char('x'))));
    assert_eq!(parse_key("shift+up"), Some((KeyModifiers::Shift, KeyCode::Up)));
    assert_eq!(parse_key("meta+q"), None);
    assert_eq!(parse_key("ctrl+alt+q"), None);
    assert_eq!(parse_key("words"), None);
}

#[test]
fn section_names_round_trip() {
    assert_eq!(Section::Channel.to_string(), "channel");
    assert_eq!(Section::StatusLine.to_string(), "status_line");
    assert!(matches!(Section::from_str("message"), Section::Message));
    assert!(matches!(Section::from_str("nowhere"), Section::Unknown));
}

#[test]
fn timestamps_format_to_some_local_label() {
    // The label depends on the machine's time zone; only its presence is
    // fixed.
    assert!(date_format(1_700_000_000_000_000, "%H:%M").is_some());
}

#[test]
fn unformattable_templates_yield_no_label() {
    // A template chrono cannot format comes back as nothing, not a panic.
    assert!(date_format(1_700_000_000_000_000, "%").is_none());
    assert!(date_format(1_700_000_000_000_000, "%Q").is_none());
}

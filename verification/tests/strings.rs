use keytui::color::ColorValue;
use keytui::rows::{flat_lines, window_lines, wrap_line, row_height};
use keytui::records::{first_token, DetailLevel};
use keytui::strutil::{bool_to_string, contains_sub, join_strings, parse_bool, parse_u16, str_eq, u64_to_string};

#[test]
fn decimal_rendering_is_exact() {
    assert_eq!(u64_to_string(0), "0");
    assert_eq!(u64_to_string(7), "7");
    assert_eq!(u64_to_string(1750), "1750");
    assert_eq!(u64_to_string(18446744073709551615), "18446744073709551615");
}

#[test]
fn bool_rendering_is_exact() {
    assert_eq!(bool_to_string(true), "true");
    assert_eq!(bool_to_string(false), "false");
}

#[test]
fn bool_parsing_accepts_exactly_the_two_words() {
    assert_eq!(parse_bool("true"), Some(true));
    assert_eq!(parse_bool("false"), Some(false));
    assert_eq!(parse_bool("True"), None);
    assert_eq!(parse_bool("1"), None);
    assert_eq!(parse_bool(""), None);
}

#[test]
fn u16_parsing_handles_digits_bounds_and_junk() {
    assert_eq!(parse_u16("0"), Some(0));
    assert_eq!(parse_u16("65535"), Some(65535));
    assert_eq!(parse_u16("65536"), None);
    assert_eq!(parse_u16("70000"), None);
    assert_eq!(parse_u16(""), None);
    assert_eq!(parse_u16("12a"), None);
    assert_eq!(parse_u16("-1"), None);
}

#[test]
fn substring_search_finds_and_rejects() {
    assert!(contains_sub("hello world", "lo wo"));
    assert!(contains_sub("hello", ""));
    assert!(contains_sub("", ""));
    assert!(!contains_sub("", "a"));
    assert!(!contains_sub("hello", "world"));
    assert!(contains_sub("aaab", "aab"));
}

#[test]
fn string_equality_is_exact() {
    assert!(str_eq("abc", "abc"));
    assert!(!str_eq("abc", "abd"));
    assert!(!str_eq("abc", "ab"));
}

#[test]
fn joining_inserts_the_separator_between_parts() {
    let parts = vec!["one".to_string(), "two".to_string(), "three".to_string()];
    assert_eq!(join_strings(&parts, "\n"), "one\ntwo\nthree");
    let single = vec!["alone".to_string()];
    assert_eq!(join_strings(&single, "\n"), "alone");
    let none: Vec<String> = Vec::new();
    assert_eq!(join_strings(&none, "\n"), "");
}

#[test]
fn first_token_stops_at_the_first_space() {
    assert_eq!(first_token("rsa3072 expires soon"), "rsa3072");
    assert_eq!(first_token("single"), "single");
    assert_eq!(first_token(""), "");
    assert_eq!(first_token(" leading"), "");
}

#[test]
fn wrapping_breaks_after_the_last_space_that_fits() {
    let lines = wrap_line("alpha beta gamma", 11);
    assert_eq!(lines, vec!["alpha beta ".to_string(), "gamma".to_string()]);
}

#[test]
fn wrapping_hard_breaks_a_long_word() {
    let lines = wrap_line("abcdefgh", 3);
    assert_eq!(lines, vec!["abc".to_string(), "def".to_string(), "gh".to_string()]);
}

#[test]
fn wrapping_leaves_a_short_line_whole() {
    assert_eq!(wrap_line("short", 40), vec!["short".to_string()]);
    assert_eq!(wrap_line("", 5), vec!["".to_string()]);
    assert_eq!(wrap_line("nowidth", 0), vec!["nowidth".to_string()]);
}

#[test]
fn windowing_clamps_the_scroll_and_cuts_the_height() {
    let lines = vec![
        "a".to_string(),
        "b".to_string(),
        "c".to_string(),
        "d".to_string(),
    ];
    assert_eq!(
        window_lines(lines.clone(), 1, 2),
        vec!["b".to_string(), "c".to_string()]
    );
    // a scroll past the end keeps the last line visible
    assert_eq!(window_lines(lines.clone(), 99, 2), vec!["d".to_string()]);
    let empty: Vec<String> = Vec::new();
    assert_eq!(window_lines(empty, 3, 2), Vec::<String>::new());
}

#[test]
fn flat_lines_wraps_each_field_in_order() {
    let group = vec!["one two".to_string(), "three".to_string()];
    let lines = flat_lines(&group, DetailLevel::Full, false, Some(5));
    assert_eq!(
        lines,
        vec!["one ".to_string(), "two".to_string(), "three".to_string()]
    );
    let unwrapped = flat_lines(&group, DetailLevel::Full, false, None);
    assert_eq!(unwrapped, group);
}

#[test]
fn row_height_is_the_larger_count_and_at_least_one() {
    assert_eq!(row_height(3, 1), 3);
    assert_eq!(row_height(1, 4), 4);
    assert_eq!(row_height(0, 0), 1);
}

#[test]
fn color_parsing_and_rendering_round_trip() {
    assert_eq!(ColorValue::parse("reset"), ColorValue::Reset);
    assert_eq!(ColorValue::parse("#ff0000"), ColorValue::Rgb(255, 0, 0));
    assert_eq!(ColorValue::parse("#0a1B2c"), ColorValue::Rgb(10, 27, 44));
    assert_eq!(ColorValue::parse("notacolor"), ColorValue::Reset);
    assert_eq!(ColorValue::parse("#12345"), ColorValue::Reset);
    assert_eq!(ColorValue::Rgb(255, 0, 0).render(), "#ff0000");
    assert_eq!(ColorValue::Rgb(10, 27, 44).render(), "#0a1b2c");
    assert_eq!(ColorValue::Reset.render(), "reset");
}

use llm_usage::kimi::is_weekly_label;
use llm_usage::text::{
    contains, contains_char, eq_ignore_ascii_case, filter_ascii, i64_to_string, pad_end,
    pad_start, parse_i64, push_str, str_eq, string_from_chars, trim, trim_end_char, u64_to_string,
};

#[test]
fn trim_removes_surrounding_whitespace() {
    assert_eq!(trim("  hi there \n\t"), "hi there");
    assert_eq!(trim("   "), "");
    assert_eq!(trim("\u{3000}x\u{a0}"), "x");
}

#[test]
fn trim_twice_is_trim_once() {
    let once = trim("  \t token \n");
    assert_eq!(trim(&once), once);
}

#[test]
fn trim_end_char_strips_trailing_slashes() {
    assert_eq!(trim_end_char("https://x.example//", '/'), "https://x.example");
    assert_eq!(trim_end_char("abc", '/'), "abc");
}

#[test]
fn decimal_forms() {
    assert_eq!(u64_to_string(0), "0");
    assert_eq!(u64_to_string(18446744073709551615), "18446744073709551615");
    assert_eq!(i64_to_string(-42), "-42");
    assert_eq!(i64_to_string(i64::MIN), "-9223372036854775808");
    assert_eq!(i64_to_string(7), "7");
}

#[test]
fn parse_i64_follows_str_parse() {
    assert_eq!(parse_i64("+7"), Some(7));
    assert_eq!(parse_i64("-9223372036854775808"), Some(i64::MIN));
    assert_eq!(parse_i64("9223372036854775807"), Some(i64::MAX));
    assert_eq!(parse_i64("9223372036854775808"), None);
    assert_eq!(parse_i64(""), None);
    assert_eq!(parse_i64("-"), None);
    assert_eq!(parse_i64("12a"), None);
    assert_eq!(parse_i64(" 12"), None);
    for n in [0i64, 1, -1, 42, i64::MAX, i64::MIN] {
        assert_eq!(parse_i64(&i64_to_string(n)), Some(n));
    }
}

#[test]
fn lowercase_uses_std_mapping() {
    assert!(is_weekly_label("WeEkLy"));
    assert!(is_weekly_label("ÄÖ WEEK"));
    assert!(!is_weekly_label("WEE"));
}

#[test]
fn padding() {
    assert_eq!(pad_end("ab", 4), "ab  ");
    assert_eq!(pad_end("abcdef", 4), "abcdef");
    assert_eq!(pad_start("5", 3), "  5");
    assert_eq!(pad_start("100", 3), "100");
}

#[test]
fn searching_and_comparing() {
    assert!(contains("a user_code=1", "user_code="));
    assert!(!contains("abc", "abd"));
    assert!(contains("abc", ""));
    assert!(contains_char("a?b", '?'));
    assert!(!contains_char("ab", '?'));
    assert!(eq_ignore_ascii_case("CODEX", "codex"));
    assert!(!eq_ignore_ascii_case("codex", "codex2"));
    assert!(str_eq("x", "x"));
    assert!(!str_eq("x", "y"));
}

#[test]
fn ascii_filter_and_building() {
    assert_eq!(filter_ascii("héllo"), "hllo");
    let mut s = String::from("ab");
    push_str(&mut s, "é!");
    assert_eq!(s, "abé!");
    assert_eq!(string_from_chars(&vec!['x', 'é', 'y']), "xéy");
}

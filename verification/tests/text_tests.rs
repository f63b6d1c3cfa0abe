use torrentino_core::converter::join_path;
use torrentino_core::text::{
    chars_of, concat2, concat3, concat4, contains_chars, copy_opt_string, copy_string,
    decimal_string, extend_strings, find_bytes, find_chars, is_whitespace, marker_cut_ok,
    normalize_chars, normalize_text, prefix_before, push_str, push_string, remove_all_chars,
    remove_pattern, str_contains, str_eq, string_from_chars, strip_prefix, truncate_at_marker,
    try_truncate_at_marker,
};

#[test]
fn prefixes() {
    assert_eq!(strip_prefix("Bearer abc", "Bearer "), Some("abc".to_string()));
    assert_eq!(strip_prefix("bearer abc", "Bearer "), None);
    assert_eq!(strip_prefix("ab", "abc"), None);
    assert_eq!(strip_prefix("abc", ""), Some("abc".to_string()));
}

#[test]
fn decimals() {
    assert_eq!(decimal_string(0), "0");
    assert_eq!(decimal_string(1234567890), "1234567890");
    assert_eq!(decimal_string(u64::MAX), u64::MAX.to_string());
}

#[test]
fn path_joining() {
    assert_eq!(join_path("/a", "b"), "/a/b");
    assert_eq!(join_path("/a/", "b"), "/a/b");
    assert_eq!(join_path("", "b"), "b");
    assert_eq!(join_path("/a", "/etc/x"), "/etc/x");
}

#[test]
fn marker_truncation_is_case_insensitive() {
    assert_eq!(truncate_at_marker("Queen FEAT. Bowie", " feat"), "Queen");
    assert_eq!(truncate_at_marker("Queen", " feat"), "Queen");
}

#[test]
fn pattern_removal_and_search() {
    assert_eq!(remove_pattern("a (x) b (x)", "(x)"), "a  b ");
    assert!(str_contains("hello world", "o w"));
    assert!(!str_contains("hello", "world"));
    assert_eq!(find_bytes(b"abcabc", b"ca"), Some(2));
    assert_eq!(find_bytes(b"abc", b""), Some(0));
    assert_eq!(normalize_text(" a \n b "), "a b");
}


#[test]
fn checked_marker_cut() {
    assert!(marker_cut_ok("Queen feat. Bowie", " feat"));
    assert_eq!(
        try_truncate_at_marker("Queen FEAT. Bowie", " feat"),
        Some("Queen".to_string())
    );
    assert_eq!(try_truncate_at_marker("Queen", " feat"), Some("Queen".to_string()));
    assert!(!marker_cut_ok("\u{212A}\u{212A} feat X", " feat"));
    assert_eq!(try_truncate_at_marker("\u{212A}\u{212A} feat X", " feat"), None);
}

#[test]
fn prefix_before_separator() {
    assert_eq!(prefix_before("flac,ogg", ','), "flac");
    assert_eq!(prefix_before("matroska", ','), "matroska");
    assert_eq!(prefix_before(",x", ','), "");
    assert_eq!(prefix_before("", '-'), "");
    assert_eq!(prefix_before("1999-03-31", '-'), "1999");
}

#[test]
fn char_sequence_search() {
    let s = chars_of("abcabc");
    assert_eq!(find_chars(&s, &chars_of("ca")), Some(2));
    assert_eq!(find_chars(&s, &chars_of("bc")), Some(1));
    assert_eq!(find_chars(&s, &chars_of("")), Some(0));
    assert_eq!(find_chars(&s, &chars_of("cc")), None);
    assert!(contains_chars(&s, &chars_of("abca")));
    assert!(!contains_chars(&chars_of("ab"), &chars_of("abc")));
}

#[test]
fn char_level_normalizing_and_removal() {
    assert_eq!(string_from_chars(&normalize_chars(&chars_of("  a \t b\n"))), "a b");
    assert_eq!(string_from_chars(&remove_all_chars(&chars_of("a-b-c"), &chars_of("-"))), "abc");
    assert_eq!(string_from_chars(&remove_all_chars(&chars_of("abc"), &chars_of(""))), "abc");
    assert!(is_whitespace('\u{3000}'));
    assert!(is_whitespace('\t'));
    assert!(!is_whitespace('x'));
}

#[test]
fn string_building_helpers() {
    assert_eq!(concat2("a", "b"), "ab");
    assert_eq!(concat3("a", "b", "c"), "abc");
    assert_eq!(concat4("a", "b", "c", "d"), "abcd");
    assert!(str_eq("x", "x"));
    assert!(!str_eq("x", "X"));
    assert_eq!(copy_string(&"k".to_string()), "k");
    assert_eq!(copy_opt_string(&Some("k".to_string())), Some("k".to_string()));
    assert_eq!(copy_opt_string(&None), None);
    let mut v: Vec<String> = vec![];
    push_str(&mut v, "a");
    push_string(&mut v, "b".to_string());
    extend_strings(&mut v, &["c".to_string(), "d".to_string()]);
    assert_eq!(v, vec!["a", "b", "c", "d"]);
}

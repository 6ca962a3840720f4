use gh_profile_gen::text::{
    bool_str, chars_of, decimal_string, empty_str, join_prefixed, join_strings, join_strs,
    opt_str, replace_char_in, split_once_char, str_contains, str_eq, titled_block, trim_str,
};

fn owned(items: &[&str]) -> Vec<String> {
    items.iter().map(|s| s.to_string()).collect()
}

#[test]
fn trim_removes_whitespace_at_both_ends_only() {
    assert_eq!(trim_str("  a b \n"), "a b");
    assert_eq!(trim_str("alice/cool-cli"), "alice/cool-cli");
    assert_eq!(trim_str("\tx"), "x");
    assert_eq!(trim_str("x\r\n"), "x");
}

#[test]
fn trim_of_blank_text_is_empty() {
    assert_eq!(trim_str(""), "");
    assert_eq!(trim_str(" "), "");
    assert_eq!(trim_str(" \t\n  "), "");
}

#[test]
fn trim_knows_unicode_whitespace() {
    assert_eq!(trim_str("\u{a0}x\u{3000}"), "x");
    assert_eq!(trim_str("\u{2003}é ü\u{2028}"), "é ü");
}

#[test]
fn trim_agrees_with_std() {
    for s in ["", " ", "a", " a", "a ", " a b ", "\n\ta\u{a0}", "ä  ", "  \u{1f44b}  "] {
        assert_eq!(trim_str(s), s.trim());
    }
}

#[test]
fn contains_finds_runs() {
    assert!(str_contains("hello", "ell"));
    assert!(str_contains("hello", "hello"));
    assert!(str_contains("hello", "o"));
    assert!(str_contains("aab", "ab"));
    assert!(str_contains("héllo", "él"));
}

#[test]
fn contains_rejects_what_is_not_there() {
    assert!(!str_contains("hello", "elo"));
    assert!(!str_contains("ab", "abc"));
    assert!(!str_contains("", "a"));
    assert!(!str_contains("abc", "ca"));
}

#[test]
fn contains_accepts_the_empty_needle() {
    assert!(str_contains("hello", ""));
    assert!(str_contains("", ""));
}

#[test]
fn equality_of_slices() {
    assert!(str_eq("", ""));
    assert!(str_eq("rust", "rust"));
    assert!(!str_eq("rust", "rusT"));
    assert!(!str_eq("rust", "rus"));
    assert!(!str_eq("", "a"));
    assert!(str_eq("é\u{1f44b}", "é\u{1f44b}"));
}

#[test]
fn chars_are_listed_in_order() {
    assert_eq!(chars_of(""), Vec::<char>::new());
    assert_eq!(chars_of("aé\u{1f44b}"), vec!['a', 'é', '\u{1f44b}']);
}

#[test]
fn join_puts_the_separator_between_neighbours() {
    assert_eq!(join_strings(&owned(&[]), ", "), "");
    assert_eq!(join_strings(&owned(&["a"]), ", "), "a");
    assert_eq!(join_strings(&owned(&["a", "b", "c"]), ", "), "a, b, c");
    assert_eq!(join_strings(&owned(&["", ""]), "-"), "-");
    assert_eq!(join_strs(&[], ";"), "");
    assert_eq!(join_strs(&["Hello", "World"], ";"), "Hello;World");
}

#[test]
fn join_prefixed_marks_every_item() {
    assert_eq!(join_prefixed(&owned(&[]), "- ", "\n"), "");
    assert_eq!(join_prefixed(&owned(&["a", "b"]), "- ", "\n"), "- a\n- b");
}

#[test]
fn titled_block_needs_items() {
    assert_eq!(titled_block("### T", &owned(&[]), "\n"), "");
    assert_eq!(titled_block("### T", &owned(&["x"]), "\n"), "### T\n\nx");
    assert_eq!(titled_block("### T", &owned(&["x", "y"]), "\n\n"), "### T\n\nx\n\ny");
}

#[test]
fn replace_touches_every_occurrence() {
    assert_eq!(replace_char_in("a-b c", '-', "--"), "a--b c");
    assert_eq!(replace_char_in("AB CD EF", ' ', "%20"), "AB%20CD%20EF");
    assert_eq!(replace_char_in("--", '-', ""), "");
    assert_eq!(replace_char_in("abc", 'x', "y"), "abc");
    assert_eq!(replace_char_in("", 'x', "y"), "");
}

#[test]
fn decimal_notation() {
    assert_eq!(decimal_string(0), "0");
    assert_eq!(decimal_string(7), "7");
    assert_eq!(decimal_string(10), "10");
    assert_eq!(decimal_string(12345), "12345");
    assert_eq!(decimal_string(1000000), "1000000");
    assert_eq!(decimal_string(u64::MAX), "18446744073709551615");
}

#[test]
fn booleans_as_text() {
    assert_eq!(bool_str(true), "true");
    assert_eq!(bool_str(false), "false");
}

#[test]
fn split_at_the_first_occurrence() {
    assert_eq!(split_once_char("a/b/c", '/'), Some(("a", "b/c")));
    assert_eq!(split_once_char("/x", '/'), Some(("", "x")));
    assert_eq!(split_once_char("x/", '/'), Some(("x", "")));
    assert_eq!(split_once_char("é/ü", '/'), Some(("é", "ü")));
    assert_eq!(split_once_char("abc", '/'), None);
    assert_eq!(split_once_char("", '/'), None);
}

#[test]
fn optional_text_falls_back() {
    assert_eq!(opt_str(&Some("x".to_string()), "d"), "x");
    assert_eq!(opt_str(&None, "d"), "d");
    assert_eq!(empty_str(), "");
}

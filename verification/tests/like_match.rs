use post_service::like::str_like;
use post_service::like::title_contains;

#[test]
fn plain_characters_fold_ascii_case() {
    assert!(str_like("abc", "abc"));
    assert!(str_like("ABC", "abc"));
    assert!(str_like("abc", "ABC"));
    assert!(!str_like("abc", "abd"));
    assert!(!str_like("abc", "ab"));
    assert!(!str_like("ab", "abc"));
}

#[test]
fn percent_matches_any_run() {
    assert!(str_like("%", ""));
    assert!(str_like("%", "anything"));
    assert!(str_like("a%c", "ac"));
    assert!(str_like("a%c", "abbbc"));
    assert!(!str_like("a%c", "abd"));
    assert!(str_like("%abc%", "xxabcxx"));
    assert!(!str_like("%abc%", "xxabxcx"));
}

#[test]
fn underscore_matches_exactly_one_character() {
    assert!(str_like("a_c", "abc"));
    assert!(!str_like("a_c", "ac"));
    assert!(!str_like("a_c", "abbc"));
    assert!(str_like("_", "x"));
    assert!(!str_like("_", ""));
}

#[test]
fn empty_pattern_matches_only_the_empty_string() {
    assert!(str_like("", ""));
    assert!(!str_like("", "a"));
}

#[test]
fn non_ascii_characters_match_themselves_without_folding() {
    assert!(str_like("caf\u{e9}", "caf\u{e9}"));
    assert!(!str_like("caf\u{e9}", "caf\u{c9}"));
    assert!(str_like("_af\u{e9}", "caf\u{e9}"));
}

#[test]
fn title_contains_is_the_wrapped_pattern() {
    assert!(title_contains("ell", "hello"));
    assert!(title_contains("HELLO", "say hello there"));
    assert!(title_contains("", "anything"));
    assert!(!title_contains("bye", "hello"));
    // wildcards inside the text keep their meaning
    assert!(title_contains("h_llo", "hello"));
    assert!(title_contains("h%o", "hero"));
}

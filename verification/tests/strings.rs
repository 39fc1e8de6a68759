use dbnet_supervisor::strutil::{
    contains_pattern, ends_with_pattern, str_eq, strip_last_component, u64_to_string,
};

#[test]
fn string_equality_is_by_characters() {
    assert!(str_eq("", ""));
    assert!(str_eq("quit", "quit"));
    assert!(!str_eq("quit", "quim"));
    assert!(!str_eq("quit", "qui"));
    assert!(!str_eq("", "q"));
}

#[test]
fn substring_search_finds_runs() {
    assert!(contains_pattern("/a/src-tauri/target/debug", "src-tauri"));
    assert!(contains_pattern("abc", ""));
    assert!(contains_pattern("abc", "abc"));
    assert!(!contains_pattern("ab", "abc"));
    assert!(!contains_pattern("/a/src-taur/target", "src-tauri"));
    assert!(contains_pattern("xxsrc-tauri", "src-tauri"));
}

#[test]
fn suffix_test_matches_end_only() {
    assert!(ends_with_pattern("/target/debug", "debug"));
    assert!(!ends_with_pattern("/target/debug/", "debug"));
    assert!(!ends_with_pattern("bug", "debug"));
    assert!(ends_with_pattern("debug", "debug"));
    assert!(ends_with_pattern("anything", ""));
}

#[test]
fn last_component_is_stripped_at_last_separator() {
    assert_eq!(strip_last_component("/a/b/c", '/'), "/a/b");
    assert_eq!(strip_last_component("/a", '/'), "");
    assert_eq!(strip_last_component("a", '/'), "");
    assert_eq!(strip_last_component("a\\b\\c", '\\'), "a\\b");
    assert_eq!(strip_last_component("/a/b/", '/'), "/a/b");
}

#[test]
fn decimal_formatting_matches_std() {
    for n in [0u64, 1, 9, 10, 99, 100, 4242, 5987, u64::MAX] {
        assert_eq!(u64_to_string(n), n.to_string());
    }
}

use wrpc_transport_do::text::{contains, same_text, split_two_exec, starts_with, trim_start_matches};

#[test]
fn prefixes() {
    assert!(starts_with("/_wrpc/a/b", "/_wrpc/"));
    assert!(starts_with("abc", ""));
    assert!(!starts_with("ab", "abc"));
    assert!(!starts_with("xabc", "abc"));
}

#[test]
fn containment() {
    assert!(contains("application/x-wrpc+json", "application/x-wrpc"));
    assert!(contains("abc", "c"));
    assert!(contains("abc", ""));
    assert!(contains("", ""));
    assert!(!contains("abc", "abcd"));
    assert!(!contains("application/json", "x-wrpc"));
}

#[test]
fn trimming_repeats() {
    assert_eq!(trim_start_matches("/_wrpc//_wrpc/a", "/_wrpc/"), "a");
    assert_eq!(trim_start_matches("ababc", "ab"), "c");
    assert_eq!(trim_start_matches("abc", ""), "abc");
    assert_eq!(trim_start_matches("xab", "ab"), "xab");
    assert_eq!(trim_start_matches("é/é", "é/"), "é");
}

#[test]
fn splitting_two() {
    assert_eq!(split_two_exec("a/b"), Some(("a".to_string(), "b".to_string())));
    assert_eq!(split_two_exec("a/b/c"), Some(("a".to_string(), "b".to_string())));
    assert_eq!(split_two_exec("/b"), Some(("".to_string(), "b".to_string())));
    assert_eq!(split_two_exec("a/"), Some(("a".to_string(), "".to_string())));
    assert_eq!(split_two_exec("abc"), None);
    assert_eq!(split_two_exec(""), None);
}

#[test]
fn sameness() {
    assert!(same_text("counter", "counter"));
    assert!(!same_text("counter", "counters"));
    assert!(!same_text("", "x"));
    assert!(same_text("", ""));
}

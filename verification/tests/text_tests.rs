//! Tests of the character-level text utilities.

use rust_nix_templater::text::{contains_str, find_from, join_lines, split_lines, starts_with_str, str_eq};

#[test]
fn equality_of_texts() {
    assert!(str_eq("abc", "abc"));
    assert!(!str_eq("abc", "abd"));
    assert!(!str_eq("abc", "ab"));
    assert!(str_eq("", ""));
}

#[test]
fn containment() {
    assert!(contains_str("name = \"x\"", "name = "));
    assert!(!contains_str("names", "name = "));
    assert!(contains_str("anything", ""));
}

#[test]
fn prefixes() {
    assert!(starts_with_str("license = \"mit\"", "license = "));
    assert!(!starts_with_str(" license = \"mit\"", "license = "));
}

#[test]
fn finding_from_an_offset() {
    assert_eq!(find_from("abcabc", 0, "bc"), Some(1));
    assert_eq!(find_from("abcabc", 2, "bc"), Some(4));
    assert_eq!(find_from("abcabc", 5, "bc"), None);
}

#[test]
fn splitting_and_joining_round_trip() {
    for text in ["", "one line", "a\nb", "a\nb\n", "\n\n", "trailing\n"] {
        let lines = split_lines(text);
        assert_eq!(join_lines(&lines), text);
        for l in &lines {
            assert!(!l.contains('\n'));
        }
    }
}

#[test]
fn split_counts() {
    assert_eq!(split_lines("").len(), 1);
    assert_eq!(split_lines("a").len(), 1);
    assert_eq!(split_lines("a\n").len(), 2);
    assert_eq!(split_lines("a\nb").len(), 2);
}

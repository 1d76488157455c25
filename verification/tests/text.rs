//! The character-level predicates behind validation and search.

use dooly::text::{str_contains, str_is_blank};

#[test]
fn test_blank_detection() {
    assert!(str_is_blank(""));
    assert!(str_is_blank("   "));
    assert!(str_is_blank(" \t\r\n "));
    assert!(str_is_blank("\u{00A0}\u{2003}"));
    assert!(!str_is_blank("a"));
    assert!(!str_is_blank("  a  "));
    assert!(!str_is_blank("."));
}

#[test]
fn test_substring_detection() {
    assert!(str_contains("Important Task", "Task"));
    assert!(str_contains("Important Task", "Important"));
    assert!(str_contains("Important Task", "ant Ta"));
    assert!(str_contains("abc", ""));
    assert!(str_contains("", ""));
    assert!(str_contains("aaab", "aab"));
    assert!(!str_contains("Important Task", "task"));
    assert!(!str_contains("", "x"));
    assert!(!str_contains("abc", "abcd"));
    assert!(!str_contains("Buy milk", "milks"));
}

#[test]
fn test_substring_with_multibyte_characters() {
    assert!(str_contains("caf\u{00E9} latte", "caf\u{00E9}"));
    assert!(str_contains("caf\u{00E9} latte", "\u{00E9} la"));
    assert!(!str_contains("cafe latte", "caf\u{00E9}"));
}

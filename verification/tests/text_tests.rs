use gemini_client::text::{
    is_blank, str_contains, str_has_prefix, str_strip_prefix, strip_trailing_slash_str,
};

#[test]
fn test_is_blank() {
    assert!(is_blank(""));
    assert!(is_blank(" \t\r\n"));
    assert!(is_blank("\u{a0}\u{2003}"));
    assert!(!is_blank(" x "));
}

#[test]
fn test_str_has_prefix() {
    assert!(str_has_prefix("models/abc", "models/"));
    assert!(str_has_prefix("abc", ""));
    assert!(!str_has_prefix("model/abc", "models/"));
    assert!(!str_has_prefix("mod", "models/"));
}

#[test]
fn test_str_contains() {
    assert!(str_contains("https://aiplatform.googleapis.com/v1", "aiplatform.googleapis.com"));
    assert!(str_contains("abc", ""));
    assert!(str_contains("abcabd", "abd"));
    assert!(!str_contains("abcab", "abd"));
    assert!(!str_contains("ab", "abc"));
}

#[test]
fn test_strip_trailing_slash_str() {
    assert_eq!(strip_trailing_slash_str("https://x.com/"), "https://x.com");
    assert_eq!(strip_trailing_slash_str("a///"), "a");
    assert_eq!(strip_trailing_slash_str("///"), "");
    assert_eq!(strip_trailing_slash_str("abc"), "abc");
}

#[test]
fn test_str_strip_prefix() {
    assert_eq!(str_strip_prefix("models/a", "models/"), "a");
    assert_eq!(str_strip_prefix("b", "models/"), "b");
    assert_eq!(str_strip_prefix("models/", "models/"), "");
}

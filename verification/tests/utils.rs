use orbly::utils::{wildcard_match, wildcard_match_chars};

#[test]
fn test_exact_match() {
    assert!(wildcard_match("hello", "hello"));
    assert!(!wildcard_match("hello", "world"));
}

#[test]
fn test_wildcard_star() {
    assert!(wildcard_match("*.example.com/*", "https://www.example.com/page"));
    assert!(wildcard_match("*.example.com/*", "http://sub.example.com/path/to/page"));
    assert!(!wildcard_match("*.example.com/*", "https://example.org/page"));
}

#[test]
fn test_case_insensitive() {
    assert!(wildcard_match("Hello", "HELLO"));
    assert!(wildcard_match("HELLO", "hello"));
    assert!(wildcard_match("*.Example.COM/*", "https://sub.example.com/path"));
}

#[test]
fn test_empty_strings() {
    assert!(wildcard_match("", ""));
    assert!(!wildcard_match("", "hello"));
    assert!(wildcard_match("*", ""));
    assert!(wildcard_match("*", "anything"));
}

#[test]
fn test_multiple_wildcards() {
    assert!(wildcard_match("*://*.example.com/*", "https://www.example.com/page"));
    assert!(wildcard_match("*google*", "https://mail.google.com/inbox"));
}

#[test]
fn test_url_special_chars() {
    assert!(wildcard_match("*example.com/path?q=*", "https://example.com/path?q=search"));
    assert!(wildcard_match("*://localhost:*", "http://localhost:3000"));
}

fn chars(s: &str) -> Vec<char> {
    s.chars().collect()
}

#[test]
fn test_match_chars_is_case_sensitive() {
    assert!(wildcard_match_chars(&chars("a*c"), &chars("abbbc")));
    assert!(!wildcard_match_chars(&chars("a*c"), &chars("ABBBC")));
}

#[test]
fn test_star_backtracks() {
    assert!(wildcard_match("*ab*abc", "xxabyyababc"));
    assert!(!wildcard_match("*ab*abc", "xxabyyabab"));
    assert!(wildcard_match("a*b*c", "abbcbc"));
    assert!(!wildcard_match("a*b*c", "abbcb"));
}

#[test]
fn test_trailing_stars_match_nothing() {
    assert!(wildcard_match("abc***", "abc"));
    assert!(!wildcard_match("abc***d", "abc"));
    assert!(wildcard_match("***", ""));
}

#[test]
fn test_star_in_text_is_a_plain_character() {
    assert!(wildcard_match("a*", "a*"));
    assert!(!wildcard_match("ab", "a*"));
}

#[test]
fn test_lowercase_is_applied_to_pattern_and_text() {
    assert!(wildcard_match("ÄRGER*", "ärgernis"));
    assert!(wildcard_match("ärger*", "ÄRGERNIS"));
}

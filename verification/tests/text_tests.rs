use openxgauthenticator::text::{chars_of, push_decimal, same_text, string_of_range, text_contains, trimmed};

#[test]
fn decimal_rendering() {
    let mut s = String::new();
    push_decimal(&mut s, 0);
    assert_eq!(s, "0");
    let mut s = "t=".to_string();
    push_decimal(&mut s, 1234567890);
    assert_eq!(s, "t=1234567890");
    let mut s = String::new();
    push_decimal(&mut s, u64::MAX as u128);
    assert_eq!(s, u64::MAX.to_string());
    let mut s = String::new();
    push_decimal(&mut s, 10);
    assert_eq!(s, "10");
}

#[test]
fn chars_and_ranges() {
    let v = chars_of("héllo");
    assert_eq!(v, vec!['h', 'é', 'l', 'l', 'o']);
    assert_eq!(string_of_range(&v, 1, 4), "éll");
    assert_eq!(string_of_range(&v, 2, 2), "");
}

#[test]
fn equality_of_texts() {
    assert!(same_text("abc", "abc"));
    assert!(!same_text("abc", "abd"));
    assert!(!same_text("abc", "ab"));
    assert!(same_text("", ""));
}

#[test]
fn substring_search() {
    assert!(text_contains("You are signed in as {username}!", "signed in as {username}"));
    assert!(!text_contains("You are signed in as alice", "{username}"));
    assert!(text_contains("anything", ""));
    assert!(!text_contains("ab", "abc"));
    assert!(text_contains("aaab", "aab"));
    assert!(text_contains("xyz", "xyz"));
}

#[test]
fn trimming_whitespace() {
    assert_eq!(trimmed("  alice\n"), "alice");
    assert_eq!(trimmed("\t\r\n"), "");
    assert_eq!(trimmed("a b"), "a b");
    assert_eq!(trimmed("\u{3000}x\u{a0}"), "x");
    assert_eq!(trimmed(""), "");
    for s in ["  p w \r\n", "\u{2003}z\u{85}", "q"] {
        assert_eq!(trimmed(s), s.trim());
    }
}

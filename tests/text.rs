use media_fetch::text::{contains_str, ends_with_str, joined, same_text, starts_with_str};

#[test]
fn substring_search() {
    assert!(contains_str("abcabd", "abd"));
    assert!(!contains_str("abcab", "abd"));
    assert!(contains_str("x", ""));
    assert!(!contains_str("", "x"));
    assert!(contains_str("héllo wörld", "ö"));
}

#[test]
fn prefixes_and_suffixes() {
    assert!(starts_with_str("abc.mp4", "abc"));
    assert!(!starts_with_str("ab", "abc"));
    assert!(ends_with_str("abc.mp4", ".mp4"));
    assert!(!ends_with_str("abc.mp3", ".mp4"));
}

#[test]
fn equality_and_joining() {
    assert!(same_text("mp3", "mp3"));
    assert!(!same_text("mp3", "mp33"));
    assert_eq!(joined("ab", "cd"), "abcd");
}

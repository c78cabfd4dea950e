use aurl_rust::logging::{log_settings, LogLevel};
use aurl_rust::text::{contains, join, replace, split_char, split_once, split_whitespace, trim};

#[test]
fn splitting_keeps_empty_pieces() {
    assert_eq!(split_char("a,,b,", ','), vec!["a", "", "b", ""]);
    assert_eq!(split_char("", ','), vec![""]);
    assert_eq!(split_char("/cb?x=1?y", '?'), vec!["/cb", "x=1", "y"]);
}

#[test]
fn white_space_tokens() {
    assert_eq!(split_whitespace("  GET  /a \t HTTP/1.1\r\n"), vec!["GET", "/a", "HTTP/1.1"]);
    assert_eq!(split_whitespace(" \u{3000} "), Vec::<String>::new());
}

#[test]
fn trimming() {
    assert_eq!(trim("  a b \n"), "a b");
    assert_eq!(trim("\u{2003}x\u{2003}"), "x");
    assert_eq!(trim("   "), "");
    assert_eq!(trim("\u{85}\u{a0}\u{3000}y\u{200b}"), "y\u{200b}");
    assert_eq!(split_whitespace("a\u{1680}b\u{205f}c"), vec!["a", "b", "c"]);
    assert_eq!(trim(&trim("  q ")), trim("  q "));
}

#[test]
fn searching_and_replacing() {
    assert!(contains("bearer $token", "$token"));
    assert!(contains("abc", ""));
    assert!(!contains("ab", "abc"));
    assert_eq!(replace("$token-$token", "$token", "X"), "X-X");
    assert_eq!(replace("aaa", "aa", "b"), "ba");
    assert_eq!(replace("none here", "$token", "X"), "none here");
    assert_eq!(replace("abc", "", "-"), "-a-b-c-");
    assert_eq!(replace("", "", "-"), "-");
    assert_eq!(replace("abc", "", "-"), "abc".replace("", "-"));
}

#[test]
fn joining() {
    assert_eq!(join(&vec!["a".to_string(), "b".to_string()], " "), "a b");
    assert_eq!(join(&vec![], " "), "");
}

#[test]
fn log_levels() {
    assert_eq!(log_settings(true), (LogLevel::Debug, "**** {m}{n}".to_string()));
    assert_eq!(log_settings(false), (LogLevel::Info, "{m}{n}".to_string()));
}

#[test]
fn splitting_once() {
    assert_eq!(split_once("a:b:c", ':'), Some(("a".to_string(), "b:c".to_string())));
    assert_eq!(split_once(":x", ':'), Some(("".to_string(), "x".to_string())));
    assert_eq!(split_once("abc", ':'), None);
}

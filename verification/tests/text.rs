use agentx::text::{
    decimal_string, ends_with, eq_ignore_ascii_case, replace_all, starts_with, strip_leading,
    strip_trailing, take_chars, to_ascii_lowercase, to_ascii_uppercase, trim,
};

#[test]
fn trim_matches_std() {
    for s in ["", "  ", " a ", "\u{85}x\u{a0}", "\u{200b}x", "a b", "\t\n\u{3000}mid\u{205f}\r"] {
        assert_eq!(trim(s), s.trim(), "{s:?}");
    }
}

#[test]
fn strip_matches_std() {
    for s in ["", "///", "/a/", "a//b//"] {
        assert_eq!(strip_trailing(s, '/'), s.trim_end_matches('/'));
        assert_eq!(strip_leading(s, '/'), s.trim_start_matches('/'));
    }
}

#[test]
fn case_helpers() {
    assert_eq!(to_ascii_lowercase("AbC\u{c9}"), "abc\u{c9}");
    assert_eq!(to_ascii_uppercase("aBc\u{e9}"), "ABC\u{e9}");
    assert!(eq_ignore_ascii_case("OpenAI.COM", "openai.com"));
    assert!(!eq_ignore_ascii_case("\u{c9}", "\u{e9}"));
    assert!(!eq_ignore_ascii_case("ab", "abc"));
}

#[test]
fn affix_helpers() {
    assert!(starts_with("abc", "ab"));
    assert!(!starts_with("a", "ab"));
    assert!(ends_with("x.openai.com", ".openai.com"));
    assert!(!ends_with("openai.com", ".openai.com"));
}

#[test]
fn replace_matches_std() {
    for (s, p, r) in [("aaaa", "aa", "b"), ("abcabc", "bc", ""), ("x", "xyz", "q"), ("{{a}}{{a}}", "{{a}}", "1")] {
        assert_eq!(replace_all(s, p, r), s.replace(p, r));
    }
}

#[test]
fn take_and_decimal() {
    assert_eq!(take_chars("h\u{e9}llo", 2), "h\u{e9}");
    assert_eq!(take_chars("hi", 10), "hi");
    assert_eq!(decimal_string(0), "0");
    assert_eq!(decimal_string(404), "404");
    assert_eq!(decimal_string(u64::MAX), u64::MAX.to_string());
}

#[test]
fn trim_is_idempotent() {
    for s in ["  a b  ", "\u{2029}", "x", "\t y \u{a0}"] {
        let once = trim(s);
        assert_eq!(trim(once), once);
    }
}

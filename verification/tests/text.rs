use usage_dash::text::{contains_text, decimal_text, same_text, split_text, trim_text};

#[test]
fn splits_like_str_split() {
    for (s, sep) in [("a/b//c", '/'), ("", '/'), ("/", '/'), ("abc", '/'), ("é/ü", '/')] {
        let expected: Vec<String> = s.split(sep).map(str::to_owned).collect();
        assert_eq!(split_text(s, sep), expected);
    }
}

#[test]
fn trims_like_str_trim() {
    for s in ["  a b  ", "\u{3000}x\u{a0}", "", "   ", "\t\n\r y \u{2028}", "no"] {
        assert_eq!(trim_text(s), s.trim());
    }
}

#[test]
fn finds_substrings() {
    assert!(contains_text("duplicate column name: account_id", "duplicate column name"));
    assert!(contains_text("abc", ""));
    assert!(!contains_text("ab", "abc"));
    assert!(!contains_text("no such table", "duplicate"));
}

#[test]
fn compares_text() {
    assert!(same_text("abc", "abc"));
    assert!(!same_text("abc", "abd"));
    assert!(!same_text("ab", "abc"));
}

#[test]
fn writes_decimal_numerals() {
    for n in [0u128, 7, 10, 42, 65535, u64::MAX as u128, u128::MAX] {
        assert_eq!(decimal_text(n), n.to_string());
    }
}

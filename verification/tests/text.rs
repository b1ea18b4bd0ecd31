use tauri::text::{chars_of, contains, decimal, replace, same_text, starts_with};

#[test]
fn decimal_writes_base_ten() {
    assert_eq!(decimal(0), "0");
    assert_eq!(decimal(7), "7");
    assert_eq!(decimal(10), "10");
    assert_eq!(decimal(109), "109");
    assert_eq!(decimal(65535), "65535");
    assert_eq!(decimal(u64::MAX), "18446744073709551615");
    for n in [0u64, 9, 10, 99, 100, 12345, 4294967295] {
        assert_eq!(decimal(n), n.to_string());
    }
}

#[test]
fn replace_agrees_with_the_standard_library() {
    let cases = [
        ("", "a", "b"),
        ("aaa", "a", "b"),
        ("aaa", "aa", "b"),
        ("it's 'quoted'", "'", "\\'"),
        ("http://http://x", "http://", ""),
        ("hthttp://tp://x", "http://", ""),
        ("abcabc", "abc", "abcabc"),
        ("abc", "abcd", "x"),
        ("h\u{e9}llo w\u{f6}rld", "\u{f6}", "o"),
        ("xay", "a", ""),
    ];
    for (text, from, to) in cases.iter() {
        assert_eq!(replace(text, from, to), text.replace(from, to));
    }
    assert_eq!(replace("aaa", "aa", "b"), "ba");
    assert_eq!(replace("abc", "", "x"), "abc");
}

#[test]
fn contains_finds_a_pattern_anywhere() {
    assert!(contains("an unknown variant `x`", "unknown variant"));
    assert!(contains("unknown variant", "unknown variant"));
    assert!(contains("xx unknown variant", "unknown variant"));
    assert!(!contains("unknown varian", "unknown variant"));
    assert!(!contains("", "unknown variant"));
    assert!(contains("", ""));
    assert!(contains("abc", ""));
    assert!(contains("aab", "ab"));
    assert!(!contains("aba", "bb"));
}

#[test]
fn starts_with_looks_at_the_front() {
    assert!(starts_with("http://x", "http"));
    assert!(starts_with("http", "http"));
    assert!(!starts_with("htt", "http"));
    assert!(!starts_with(" http", "http"));
    assert!(starts_with("", ""));
    assert!(starts_with("abc", ""));
}

#[test]
fn same_text_compares_all_characters() {
    assert!(same_text("", ""));
    assert!(same_text("abc", "abc"));
    assert!(!same_text("abc", "abd"));
    assert!(!same_text("abc", "ab"));
    assert!(!same_text("ab", "abc"));
}

#[test]
fn chars_of_keeps_the_order() {
    assert_eq!(chars_of("a\u{e9}z"), vec!['a', '\u{e9}', 'z']);
    assert_eq!(chars_of(""), Vec::<char>::new());
}

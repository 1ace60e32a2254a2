use strawberry_id::text::{
    chars_of, concat2, contains_string, decimal_len, decimal_string, is_blank, lower_hex_string,
    replace, same_text, starts_with,
};

#[test]
fn decimal_string_writes_digits() {
    assert_eq!(decimal_string(0), "0");
    assert_eq!(decimal_string(7), "7");
    assert_eq!(decimal_string(1111111111), "1111111111");
    assert_eq!(decimal_string(u64::MAX), "18446744073709551615");
}

#[test]
fn decimal_len_counts_digits() {
    assert_eq!(decimal_len(0), 1);
    assert_eq!(decimal_len(9), 1);
    assert_eq!(decimal_len(10), 2);
    assert_eq!(decimal_len(999_999_999), 9);
    assert_eq!(decimal_len(1_000_000_000), 10);
    assert_eq!(decimal_len(u64::MAX), 20);
}

#[test]
fn lower_hex_string_matches_format() {
    assert_eq!(lower_hex_string(0), "0");
    assert_eq!(lower_hex_string(255), "ff");
    assert_eq!(lower_hex_string(0x1a2b3c), "1a2b3c");
    assert_eq!(lower_hex_string(u64::MAX), format!("{:x}", u64::MAX));
}

#[test]
fn is_blank_matches_trim() {
    for s in ["", " ", "\t\n\r ", "\u{3000}\u{A0}", " a ", "x", "\u{2003}"] {
        assert_eq!(is_blank(s), s.trim().is_empty(), "{:?}", s);
    }
}

#[test]
fn replace_matches_std() {
    let cases = [
        ("http://example.com", "http://", ""),
        ("https://a.b/http://c", "http://", ""),
        ("aaaa", "aa", "b"),
        ("Hello %s, %s!", "%s", "World"),
        ("no marker", "%s", "x"),
        ("", "%s", "x"),
        ("%1 wants %2", "%2", "<u>42</u>"),
    ];
    for (s, p, r) in cases {
        assert_eq!(replace(s, p, r), s.replace(p, r), "{:?}", (s, p, r));
    }
}

#[test]
fn starts_with_and_same_text() {
    assert!(starts_with("de-DE,de;q=0.9", "de"));
    assert!(!starts_with("d", "de"));
    assert!(starts_with("anything", ""));
    assert!(same_text("abc", "abc"));
    assert!(!same_text("abc", "abd"));
    assert!(!same_text("abc", "ab"));
}

#[test]
fn contains_string_finds_exact_entries() {
    let v = vec!["example.com".to_string(), "strawberry.dev".to_string()];
    assert!(contains_string(&v, "strawberry.dev"));
    assert!(!contains_string(&v, "Strawberry.dev"));
    assert!(!contains_string(&Vec::new(), "x"));
}

#[test]
fn chars_and_concat() {
    assert_eq!(chars_of("aé"), vec!['a', 'é']);
    assert_eq!(concat2("/v2/", "de"), "/v2/de");
}

use ntrans::text::{ascii_lowercase, i64_to_dec, is_blank, str_eq, trimmed, u64_to_dec, u64_to_hex};

#[test]
fn text_helpers() {
    assert!(str_eq("abc", "abc"));
    assert!(!str_eq("abc", "abd"));
    assert!(!str_eq("ab", "abc"));
    assert!(is_blank(" \t\n\u{3000}\u{a0}"));
    assert!(!is_blank(" x "));
    assert_eq!(trimmed("  a b \u{2003}"), "a b");
    assert_eq!(trimmed("   "), "");
    assert_eq!(ascii_lowercase("MyMemory-É"), "mymemory-É");
    assert_eq!(u64_to_dec(0), "0");
    assert_eq!(u64_to_dec(u64::MAX), u64::MAX.to_string());
    assert_eq!(u64_to_hex(255), "ff");
    assert_eq!(u64_to_hex(0), "0");
    assert_eq!(i64_to_dec(-120), "-120");
    assert_eq!(i64_to_dec(i64::MIN), i64::MIN.to_string());
    assert_eq!(trimmed(" x").as_str(), " x".trim());
}

#[test]
fn char_of_each_byte() {
    assert_eq!(ntrans::text::char_from_ascii(b'a'), 'a');
    assert_eq!(ntrans::text::char_from_ascii(0), '\0');
    assert_eq!(ntrans::text::char_from_ascii(200), '\u{c8}');
    assert_eq!(ntrans::text::char_from_ascii(255), '\u{ff}');
}

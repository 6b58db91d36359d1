use yomiage::text::{chars_of, parse_bounded, parse_u64, string_of, trim_chars, u64_to_decimal};

fn parse(s: &str) -> Option<u64> {
    parse_u64(chars_of(s).as_slice())
}

#[test]
fn parse_accepts_plus_and_leading_zeros() {
    assert_eq!(parse("42"), Some(42));
    assert_eq!(parse("+7"), Some(7));
    assert_eq!(parse("007"), Some(7));
    assert_eq!(parse("18446744073709551615"), Some(u64::MAX));
}

#[test]
fn parse_rejects_what_str_parse_rejects() {
    assert_eq!(parse(""), None);
    assert_eq!(parse("+"), None);
    assert_eq!(parse("-1"), None);
    assert_eq!(parse(" 1"), None);
    assert_eq!(parse("1a"), None);
    assert_eq!(parse("18446744073709551616"), None);
    assert_eq!(parse("١٢"), None);
}

#[test]
fn parse_bounded_follows_the_bound() {
    let s = chars_of("4294967296");
    assert_eq!(parse_bounded(s.as_slice(), u32::MAX as u64), None);
    let s = chars_of("4294967295");
    assert_eq!(parse_bounded(s.as_slice(), u32::MAX as u64), Some(4294967295));
}

#[test]
fn decimal_roundtrip() {
    for n in [0u64, 9, 10, 8, 1234567890, u64::MAX] {
        let s = u64_to_decimal(n);
        assert_eq!(s, n.to_string());
        assert_eq!(parse(&s), Some(n));
    }
}

#[test]
fn trim_removes_unicode_white_space_only() {
    let v = chars_of("\u{3000}\u{A0} a b \u{2003}\n");
    assert_eq!(string_of(&trim_chars(&v)), "a b");
    let v = chars_of("\u{200B}x");
    assert_eq!(string_of(&trim_chars(&v)), "\u{200B}x");
    assert_eq!(string_of(&trim_chars(&chars_of("   "))), "");
}

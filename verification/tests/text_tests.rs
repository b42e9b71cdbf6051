use stt_client::text::u16_to_decimal;
use stt_client::trim_str;

#[test]
fn trim_removes_ascii_whitespace_at_both_ends() {
    assert_eq!(trim_str("  hello world  "), "hello world");
    assert_eq!(trim_str("\t\r\n x \n"), "x");
    assert_eq!(trim_str("inner  space"), "inner  space");
}

#[test]
fn trim_removes_unicode_whitespace() {
    assert_eq!(trim_str("\u{3000}\u{a0} hi \u{2028}\u{2009}"), "hi");
    assert_eq!(trim_str("\u{1680}x\u{205f}"), "x");
}

#[test]
fn trim_of_all_whitespace_is_empty() {
    assert_eq!(trim_str("   "), "");
    assert_eq!(trim_str(""), "");
    assert_eq!(trim_str("\u{2000}\u{2001}\u{2002}"), "");
}

#[test]
fn decimal_rendering_has_no_leading_zeros() {
    assert_eq!(u16_to_decimal(0), "0");
    assert_eq!(u16_to_decimal(7), "7");
    assert_eq!(u16_to_decimal(10), "10");
    assert_eq!(u16_to_decimal(500), "500");
    assert_eq!(u16_to_decimal(65535), "65535");
}

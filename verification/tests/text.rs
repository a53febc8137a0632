use warp_tui::text::{owned, push_char, push_decimal, str_is_blank, trim, char_is_whitespace};

#[test]
fn decimal_rendering_appends_digits() {
    let mut s = owned("n=");
    push_decimal(&mut s, 0);
    push_char(&mut s, ',');
    push_decimal(&mut s, 1234567890);
    assert_eq!(s, "n=0,1234567890");
    let mut max = String::new();
    push_decimal(&mut max, u64::MAX);
    assert_eq!(max, u64::MAX.to_string());
}

#[test]
fn trimming_matches_unicode_whitespace() {
    assert_eq!(trim("\u{2003} hi there \u{85}"), "hi there");
    assert_eq!(trim("   "), "");
    assert_eq!(trim(&trim("  x ")), "x");
    assert!(str_is_blank("\u{a0}\t"));
    assert!(!str_is_blank(" x "));
    assert!(char_is_whitespace('\u{3000}'));
    assert!(!char_is_whitespace('\u{200b}'));
    for c in ['\t', '\n', ' ', '\u{1680}', '\u{2028}', '\u{205f}', 'a', '\u{feff}'] {
        assert_eq!(char_is_whitespace(c), c.is_whitespace());
    }
}

use deepseek_mobile::text::{is_blank_str, trim_str};

#[test]
fn trim_drops_unicode_white_space_only() {
    assert_eq!(trim_str("\u{3000}\u{a0} word\t\n"), "word");
    assert_eq!(trim_str("\u{2028}a b\u{205f}"), "a b");
    assert_eq!(trim_str("\u{200b}x"), "\u{200b}x");
    assert!(is_blank_str(" \u{85}\u{1680}\r"));
    assert!(!is_blank_str(" . "));
}

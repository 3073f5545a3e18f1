use backend::text::{is_whitespace, trim};

#[test]
fn trim_removes_unicode_whitespace_at_both_ends() {
    assert_eq!(trim(" hello "), "hello");
    assert_eq!(trim("\n\nhhh\n\n"), "hhh");
    assert_eq!(trim("\u{3000}\t a b \u{2029}\u{a0}\u{85}"), "a b");
    assert_eq!(trim("   "), "");
    assert_eq!(trim(""), "");
    assert_eq!(trim("é x é"), "é x é");
    assert_eq!(trim("\u{200b}x\u{200b}"), "\u{200b}x\u{200b}");
}

#[test]
fn whitespace_matches_std() {
    for v in 0u32..0x3100 {
        if let Some(c) = char::from_u32(v) {
            assert_eq!(is_whitespace(c), c.is_whitespace(), "{:x}", v);
        }
    }
    for s in ["  x  ", "\u{1680}y\u{205f}", "\u{2000}\u{200a}z", "a\u{202f}"] {
        assert_eq!(trim(s), s.trim());
    }
}

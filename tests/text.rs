use omr_bumper::text::{is_white, trim};

#[test]
fn white_space_rule_matches_std_for_every_char() {
    for u in 0..=0x10ffffu32 {
        if let Some(c) = char::from_u32(u) {
            assert_eq!(is_white(c), c.is_whitespace(), "U+{:04X}", u);
        }
    }
}

#[test]
fn trim_matches_std() {
    for s in ["", "  ", " a ", "\u{3000}x y\u{2029}", "a", "\t\n b\r\n", "\u{200b}z\u{200b}"] {
        assert_eq!(trim(s), s.trim());
    }
}

use shortener::text::{is_white_space_char, trim};

#[test]
fn trim_removes_surrounding_white_space() {
    assert_eq!(trim("  https://example.com \n"), "https://example.com");
    assert_eq!(trim("\t\u{a0}a b\u{3000}"), "a b");
    assert_eq!(trim("plain"), "plain");
    assert_eq!(trim(" \r\n\t "), "");
    assert_eq!(trim(""), "");
}

#[test]
fn trim_agrees_with_str_trim() {
    let samples = [" x ", "\u{2028}y\u{2029}", "\u{85}z", "w\u{200b}", "\u{1680}\u{202f}v\u{205f}"];
    for s in samples.iter() {
        assert_eq!(trim(s), s.trim());
    }
}

#[test]
fn white_space_matches_char_is_whitespace() {
    let mut c: u32 = 0;
    while c < 0x110000 {
        if let Some(ch) = char::from_u32(c) {
            assert_eq!(is_white_space_char(ch), ch.is_whitespace(), "{:?}", ch);
        }
        c += 1;
    }
}

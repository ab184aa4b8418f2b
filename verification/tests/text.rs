use win_msgbox::{normalize_text, to_wide};

#[test]
fn normalize_converts_line_endings() {
    assert_eq!(normalize_text("a\r\nb\rc\nd"), "a\nb\nc\nd");
    assert_eq!(normalize_text("a\r\r\nb"), "a\n\nb");
}

#[test]
fn normalize_trims_unicode_white_space() {
    assert_eq!(normalize_text(" \t\u{3000}x y\u{00A0}\u{2029}"), "x y");
    assert_eq!(normalize_text("   "), "");
    assert_eq!(normalize_text(""), "");
    assert_eq!(normalize_text("\u{200B}x"), "\u{200B}x");
}

#[test]
fn normalize_matches_std() {
    for s in ["  hi\r\n", "\r\rx\r\n\r\n", "\u{85}a\u{1680}", "no change", "\u{2028}\r"] {
        let expected = s.replace("\r\n", "\n").replace('\r', "\n").trim().to_string();
        assert_eq!(normalize_text(s), expected);
    }
}

#[test]
fn normalize_is_idempotent() {
    for s in ["  a\r\nb  ", "\r\n\r", "x", " \u{3000} "] {
        let once = normalize_text(s);
        assert_eq!(normalize_text(&once), once);
    }
}

#[test]
fn to_wide_encodes_and_terminates() {
    assert_eq!(to_wide(""), vec![0]);
    assert_eq!(to_wide("Hi"), vec![0x48, 0x69, 0]);
    assert_eq!(to_wide("\u{1F600}"), vec![0xD83D, 0xDE00, 0]);
    assert_eq!(to_wide("\u{10FFFF}\u{FFFF}"), vec![0xDBFF, 0xDFFF, 0xFFFF, 0]);
}

#[test]
fn to_wide_matches_std() {
    for s in ["abc", "日本語", "\u{1F600}\u{1F601}", "mixed \u{10000} end"] {
        let expected: Vec<u16> = s.encode_utf16().chain(std::iter::once(0)).collect();
        assert_eq!(to_wide(s), expected);
    }
}

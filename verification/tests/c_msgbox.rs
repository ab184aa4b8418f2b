use win_msgbox::{MsgBoxType, MsgBtnType, custom_msgbox_w, to_wide, wide_ptr_to_string};

#[test]
fn wide_ptr_to_string_null() {
    assert_eq!(wide_ptr_to_string(None), "");
}

#[test]
fn wide_ptr_to_string_valid() {
    let input: Vec<u16> = "Hello\0".encode_utf16().collect();
    assert_eq!(wide_ptr_to_string(Some(&input)), "Hello");
}

#[test]
fn wide_ptr_to_string_empty() {
    let input: Vec<u16> = "\0".encode_utf16().collect();
    assert_eq!(wide_ptr_to_string(Some(&input)), "");
}

#[test]
fn wide_ptr_to_string_non_bmp() {
    // U+1F600 GRINNING FACE = surrogate pair 0xD83D 0xDE00
    let input: Vec<u16> = vec![0xD83D, 0xDE00, 0x0000];
    assert_eq!(wide_ptr_to_string(Some(&input)), "\u{1F600}");
}

#[test]
fn custom_msgbox_w_null_pointers() {
    // Null pointers count as empty strings; the title falls back to "Info".
    let result = custom_msgbox_w(
        None,
        None,
        MsgBoxType::Info.to_u32(),
        MsgBtnType::OkOnly.to_u32(),
        0,
        42,
    );
    let req = result.expect("valid codes give a dialog");
    assert_eq!(wide_ptr_to_string(Some(&req.text)), "");
    assert_eq!(wide_ptr_to_string(Some(&req.title)), "Info [win_msgbox] 42");
    assert_eq!(req.flags, 0x0040 | 0x10000 | 0x1000);
    assert_eq!(req.timeout_ms, 0);
}

#[test]
fn wide_ptr_to_string_stops_at_first_nul() {
    let input: Vec<u16> = vec![0x41, 0x42, 0x0000, 0x43, 0x0000];
    assert_eq!(wide_ptr_to_string(Some(&input)), "AB");
}

#[test]
fn wide_ptr_to_string_without_nul_reads_all() {
    let input: Vec<u16> = vec![0x41, 0x42];
    assert_eq!(wide_ptr_to_string(Some(&input)), "AB");
}

#[test]
fn wide_ptr_to_string_unpaired_surrogates() {
    // A lone low surrogate, a high surrogate followed by a plain unit, and a
    // trailing high surrogate each become U+FFFD.
    let input: Vec<u16> = vec![0xDE00, 0xD83D, 0x0041, 0xD83D, 0x0000];
    assert_eq!(wide_ptr_to_string(Some(&input)), "\u{FFFD}\u{FFFD}A\u{FFFD}");
}

#[test]
fn wide_round_trip() {
    for s in ["", "Hello", "héllo wörld", "\u{1F600} smile \u{10FFFF}", "日本語"] {
        let w = to_wide(s);
        assert_eq!(wide_ptr_to_string(Some(&w)), s);
    }
}

#[test]
fn custom_msgbox_w_rejects_unknown_icon() {
    let msg = to_wide("hi");
    assert!(custom_msgbox_w(Some(&msg), None, 0x0050, 0x0000, 0, 1).is_none());
    assert!(custom_msgbox_w(Some(&msg), None, 0x0000, 0x0000, 0, 1).is_none());
}

#[test]
fn custom_msgbox_w_rejects_unknown_buttons() {
    let msg = to_wide("hi");
    assert!(custom_msgbox_w(Some(&msg), None, 0x0010, 0x0002, 0, 1).is_none());
    assert!(custom_msgbox_w(Some(&msg), None, 0x0010, 0x0003, 0, 1).is_none());
}

#[test]
fn custom_msgbox_w_decodes_texts() {
    let msg = to_wide("  Disk\r\nfull  ");
    let title = to_wide("Storage");
    let req = custom_msgbox_w(Some(&msg), Some(&title), 0x0030, 0x0004, 2500, 7).unwrap();
    assert_eq!(wide_ptr_to_string(Some(&req.text)), "Disk\nfull");
    assert_eq!(wide_ptr_to_string(Some(&req.title)), "Storage [win_msgbox] 7");
    assert_eq!(req.flags, 0x0004 | 0x0030 | 0x10000 | 0x1000);
    assert_eq!(req.timeout_ms, 2500);
}

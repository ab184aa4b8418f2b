use win_msgbox::{
    MsgBoxType, MsgBtnType, custom_msgbox, error_msgbox, info_msgbox, msgbox_outcome,
    quest_msgbox_okcancel, quest_msgbox_yesno, warn_msgbox, wide_ptr_to_string,
};

fn text_of(units: &Vec<u16>) -> String {
    assert_eq!(units.last(), Some(&0));
    wide_ptr_to_string(Some(units))
}

#[test]
fn button_flags() {
    assert_eq!(MsgBtnType::OkOnly.to_u32(), 0x0000);
    assert_eq!(MsgBtnType::OkCancel.to_u32(), 0x0001);
    assert_eq!(MsgBtnType::YesNo.to_u32(), 0x0004);
}

#[test]
fn icon_flags() {
    assert_eq!(MsgBoxType::Error.to_u32(), 0x0010);
    assert_eq!(MsgBoxType::Quest.to_u32(), 0x0020);
    assert_eq!(MsgBoxType::Warn.to_u32(), 0x0030);
    assert_eq!(MsgBoxType::Info.to_u32(), 0x0040);
}

#[test]
fn icon_names() {
    assert_eq!(MsgBoxType::Error.to_string(), "Error");
    assert_eq!(MsgBoxType::Quest.to_string(), "Question");
    assert_eq!(MsgBoxType::Warn.to_string(), "Warning");
    assert_eq!(MsgBoxType::Info.to_string(), "Info");
}

#[test]
fn flag_codes_round_trip() {
    for t in [MsgBtnType::OkOnly, MsgBtnType::OkCancel, MsgBtnType::YesNo] {
        assert_eq!(MsgBtnType::from_u32(t.to_u32()), Some(t));
    }
    for t in [MsgBoxType::Error, MsgBoxType::Info, MsgBoxType::Quest, MsgBoxType::Warn] {
        assert_eq!(MsgBoxType::from_u32(t.to_u32()), Some(t));
    }
    assert_eq!(MsgBtnType::from_u32(2), None);
    assert_eq!(MsgBoxType::from_u32(0x50), None);
}

#[test]
fn outcome_reports_timeout() {
    assert_eq!(msgbox_outcome(1, false), 1);
    assert_eq!(msgbox_outcome(2, false), 2);
    assert_eq!(msgbox_outcome(6, false), 6);
    assert_eq!(msgbox_outcome(7, false), 7);
    assert_eq!(msgbox_outcome(1, true), -1);
    assert_eq!(msgbox_outcome(0, true), -1);
}

#[test]
fn empty_titles_fall_back_to_the_icon_name() {
    assert_eq!(text_of(&info_msgbox("m", "", 0, 1).title), "Info [win_msgbox] 1");
    assert_eq!(text_of(&error_msgbox("m", "  ", 0, 2).title), "Error [win_msgbox] 2");
    assert_eq!(text_of(&warn_msgbox("m", "\r\n", 0, 3).title), "Warning [win_msgbox] 3");
    assert_eq!(text_of(&quest_msgbox_yesno("m", "", 0, 4).title), "Question [win_msgbox] 4");
    assert_eq!(text_of(&quest_msgbox_okcancel("m", "", 0, 5).title), "Question [win_msgbox] 5");
}

#[test]
fn titles_are_normalized_and_stamped() {
    let req = custom_msgbox(
        "body",
        "  My\r\nTitle \t",
        MsgBoxType::Warn,
        MsgBtnType::OkCancel,
        0,
        1725029869123456789,
    );
    assert_eq!(text_of(&req.title), "My\nTitle [win_msgbox] 1725029869123456789");
}

#[test]
fn stamp_zero_and_max() {
    let req = info_msgbox("m", "T", 0, 0);
    assert_eq!(text_of(&req.title), "T [win_msgbox] 0");
    let req = info_msgbox("m", "T", 0, u128::MAX);
    assert_eq!(
        text_of(&req.title),
        format!("T [win_msgbox] {}", u128::MAX)
    );
}

#[test]
fn message_text_is_normalized() {
    let req = info_msgbox("\r\n  line1\r\nline2\rline3  \n", "t", 0, 0);
    assert_eq!(text_of(&req.text), "line1\nline2\nline3");
}

#[test]
fn flags_of_each_preset() {
    let fg = 0x10000 | 0x1000;
    assert_eq!(info_msgbox("m", "t", 0, 0).flags, 0x0040 | fg);
    assert_eq!(error_msgbox("m", "t", 0, 0).flags, 0x0010 | fg);
    assert_eq!(warn_msgbox("m", "t", 0, 0).flags, 0x0030 | fg);
    assert_eq!(quest_msgbox_yesno("m", "t", 0, 0).flags, 0x0004 | 0x0020 | fg);
    assert_eq!(quest_msgbox_okcancel("m", "t", 0, 0).flags, 0x0001 | 0x0020 | fg);
}

#[test]
fn flags_decode_back() {
    for b in [MsgBtnType::OkOnly, MsgBtnType::OkCancel, MsgBtnType::YesNo] {
        for k in [MsgBoxType::Error, MsgBoxType::Info, MsgBoxType::Quest, MsgBoxType::Warn] {
            let f = custom_msgbox("m", "t", k, b, 0, 0).flags;
            assert_eq!(f & 0xF, b.to_u32());
            assert_eq!(f & 0xF0, k.to_u32());
            assert_eq!(f & 0x11000, 0x11000);
            assert_eq!(f & !0x110FF, 0);
        }
    }
}

#[test]
fn timeout_closer_only_with_a_timeout() {
    let req = info_msgbox("m", "t", 3000, 0);
    assert_eq!(req.timeout_ms, 3000);
    assert!(req.closes_on_timeout());
    assert!(!info_msgbox("m", "t", 0, 0).closes_on_timeout());
}

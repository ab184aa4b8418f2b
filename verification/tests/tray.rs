use win_msgbox::{NotifyIconType, notify_msgbox, to_wide};

#[test]
fn balloon_fields() {
    let nid = notify_msgbox(77, "Operation completed successfully", 1, 976);
    assert_eq!(nid.cbSize, 976);
    assert_eq!(nid.hWnd, 77);
    assert_eq!(nid.uID, 1);
    assert_eq!(nid.uFlags, 0x10);
    assert_eq!(nid.dwInfoFlags, 0x1);
    assert_eq!(nid.uCallbackMessage, 0);
    assert_eq!(nid.hIcon, 0);
    assert!(nid.szTip.iter().all(|&u| u == 0));
    let msg = to_wide("Operation completed successfully");
    assert_eq!(&nid.szInfo[..msg.len()], &msg[..]);
    assert!(nid.szInfo[msg.len()..].iter().all(|&u| u == 0));
    let title = to_wide("win_msgbox");
    assert_eq!(&nid.szInfoTitle[..title.len()], &title[..]);
    assert!(nid.szInfoTitle[title.len()..].iter().all(|&u| u == 0));
}

#[test]
fn balloon_text_is_cut_to_255_units() {
    let long = "x".repeat(400);
    let nid = notify_msgbox(1, &long, 2, 0);
    assert!(nid.szInfo[..255].iter().all(|&u| u == 'x' as u16));
    assert_eq!(nid.szInfo[255], 0);
}

#[test]
fn icon_types_exist() {
    let kinds = [NotifyIconType::Info, NotifyIconType::Warning, NotifyIconType::Error];
    assert_eq!(kinds.len(), 3);
    assert_ne!(kinds[0], kinds[2]);
}

//! Windows message boxes and notification popups: the computing core.
//!
//! This crate holds what these dialogs decide and compute, verified with
//! Verus: text normalization, UTF-16 encoding and decoding, dialog titles and
//! style flags, the result a dialog reports, the countdown of a notification
//! popup, the registry of notification threads and the balloon-tip payload.
//! The Windows API calls themselves are made by the companion application
//! crate, which hands the results of those calls back to these functions.

pub mod c_msgbox;
pub mod msgbox;
pub mod popup_notify;
pub mod text;
pub mod tray_notify;
pub mod win32;

pub use c_msgbox::{custom_msgbox_w, wide_ptr_to_string};
pub use msgbox::{
    MsgBoxRequest, MsgBoxType, MsgBtnType, PROCESS_NAME, custom_msgbox, error_msgbox,
    info_msgbox, msgbox_outcome, quest_msgbox_okcancel, quest_msgbox_yesno, warn_msgbox,
};
pub use popup_notify::{
    Countdown, NotifyRegistry, TimerAction, effective_dpi, notify_class_name, popup_origin,
    wait_notifications,
};
pub use text::{normalize_text, to_wide};
pub use tray_notify::{NotifyIconType, notify_msgbox};
pub use win32::{HWND, MSG, NOTIFYICONDATAW, RECT};

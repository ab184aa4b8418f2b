//! Message boxes: icon and button styles, dialog titles and flags, and the
//! result a dialog reports.

use vstd::prelude::*;
use vstd::string::StringExecFns;

use crate::text::{
    decimal, normalize_text, normalized, push_decimal, string_of, to_wide, wide,
};
use crate::win32::{MB_SETFOREGROUND, MB_SYSTEMMODAL};

verus! {

/// The name of this crate, which message box titles carry as a suffix.
pub const PROCESS_NAME: &'static str = "win_msgbox";

/// Button combinations for Windows message boxes.
///
/// Maps to Windows API button style flags:
/// - `OkOnly`:   MB_OK (0x0000): only the OK button
/// - `OkCancel`: MB_OKCANCEL (0x0001): OK and Cancel buttons
/// - `YesNo`:    MB_YESNO (0x0004): Yes and No buttons
#[derive(Clone, Copy, Debug, PartialEq, Eq, Structural)]
pub enum MsgBtnType {
    /// Only the OK button (MB_OK)
    OkOnly,
    /// OK and Cancel buttons (MB_OKCANCEL)
    OkCancel,
    /// Yes and No buttons (MB_YESNO)
    YesNo,
}

impl MsgBtnType {
    /// The Windows API flag of this button combination.
    pub open spec fn code(self) -> u32 {
        match self {
            MsgBtnType::OkOnly => 0x0000,
            MsgBtnType::OkCancel => 0x0001,
            MsgBtnType::YesNo => 0x0004,
        }
    }

    /// Converts the button type to its Windows API flag value.
    pub fn to_u32(self) -> (r: u32)
        ensures
            r == self.code(),
    {
        match self {
            MsgBtnType::OkOnly => 0x0000,
            MsgBtnType::OkCancel => 0x0001,
            MsgBtnType::YesNo => 0x0004,
        }
    }

    /// The button type whose Windows API flag is `v`, if any.
    pub open spec fn of_code(v: u32) -> Option<MsgBtnType> {
        if v == 0x0000 {
            Some(MsgBtnType::OkOnly)
        } else if v == 0x0001 {
            Some(MsgBtnType::OkCancel)
        } else if v == 0x0004 {
            Some(MsgBtnType::YesNo)
        } else {
            None
        }
    }

    /// The button type whose Windows API flag is `v`, if any.
    pub fn from_u32(v: u32) -> (r: Option<MsgBtnType>)
        ensures
            r == Self::of_code(v),
    {
        match v {
            0x0000 => Some(MsgBtnType::OkOnly),
            0x0001 => Some(MsgBtnType::OkCancel),
            0x0004 => Some(MsgBtnType::YesNo),
            _ => None,
        }
    }
}

/// Icon styles for Windows message boxes.
///
/// Maps to Windows API icon style flags:
/// - `Error`: MB_ICONERROR (0x0010): red X error icon
/// - `Info`:  MB_ICONINFORMATION (0x0040): blue "i" information icon
/// - `Quest`: MB_ICONQUESTION (0x0020): blue "?" question icon
/// - `Warn`:  MB_ICONWARNING (0x0030): yellow "!" warning icon
#[derive(Clone, Copy, Debug, PartialEq, Eq, Structural)]
pub enum MsgBoxType {
    /// Error icon: red X (MB_ICONERROR)
    Error,
    /// Information icon: blue "i" (MB_ICONINFORMATION)
    Info,
    /// Question icon: blue "?" (MB_ICONQUESTION)
    Quest,
    /// Warning icon: yellow "!" (MB_ICONWARNING)
    Warn,
}

impl MsgBoxType {
    /// The Windows API flag of this icon style.
    pub open spec fn code(self) -> u32 {
        match self {
            MsgBoxType::Error => 0x0010,
            MsgBoxType::Quest => 0x0020,
            MsgBoxType::Warn => 0x0030,
            MsgBoxType::Info => 0x0040,
        }
    }

    /// The human-readable name of this icon style, the default dialog title.
    pub open spec fn name(self) -> Seq<char> {
        match self {
            MsgBoxType::Error => "Error"@,
            MsgBoxType::Quest => "Question"@,
            MsgBoxType::Warn => "Warning"@,
            MsgBoxType::Info => "Info"@,
        }
    }

    /// Converts the message box type to its Windows API flag value.
    pub fn to_u32(self) -> (r: u32)
        ensures
            r == self.code(),
    {
        match self {
            MsgBoxType::Error => 0x0010,
            MsgBoxType::Quest => 0x0020,
            MsgBoxType::Warn => 0x0030,
            MsgBoxType::Info => 0x0040,
        }
    }

    /// The message box type whose Windows API flag is `v`, if any.
    pub open spec fn of_code(v: u32) -> Option<MsgBoxType> {
        if v == 0x0010 {
            Some(MsgBoxType::Error)
        } else if v == 0x0020 {
            Some(MsgBoxType::Quest)
        } else if v == 0x0030 {
            Some(MsgBoxType::Warn)
        } else if v == 0x0040 {
            Some(MsgBoxType::Info)
        } else {
            None
        }
    }

    /// The message box type whose Windows API flag is `v`, if any.
    pub fn from_u32(v: u32) -> (r: Option<MsgBoxType>)
        ensures
            r == Self::of_code(v),
    {
        match v {
            0x0010 => Some(MsgBoxType::Error),
            0x0020 => Some(MsgBoxType::Quest),
            0x0030 => Some(MsgBoxType::Warn),
            0x0040 => Some(MsgBoxType::Info),
            _ => None,
        }
    }

    /// Formats the message box type as a human-readable title: "Error",
    /// "Question", "Warning" or "Info".
    pub fn to_string(&self) -> (r: String)
        ensures
            r@ == self.name(),
    {
        match self {
            MsgBoxType::Error => "Error".to_owned(),
            MsgBoxType::Quest => "Question".to_owned(),
            MsgBoxType::Warn => "Warning".to_owned(),
            MsgBoxType::Info => "Info".to_owned(),
        }
    }
}

/// The style flags of a dialog: buttons, icon, foreground and system-modal.
pub open spec fn dialog_flags(btn: MsgBtnType, kind: MsgBoxType) -> u32 {
    btn.code() | kind.code() | MB_SETFOREGROUND | MB_SYSTEMMODAL
}

/// The title a dialog shows before its suffix: the normalized title, or the
/// name of the icon style when that is empty.
pub open spec fn base_title(title: Seq<char>, kind: MsgBoxType) -> Seq<char> {
    let t = normalized(title);
    if t.len() == 0 {
        kind.name()
    } else {
        t
    }
}

/// The full window title of a dialog: its base title, the crate name in
/// brackets, and the creation timestamp in nanoseconds, which makes the title
/// unique so that the timeout closer finds this very window.
pub open spec fn dialog_title(title: Seq<char>, kind: MsgBoxType, stamp: nat) -> Seq<char> {
    base_title(title, kind) + " ["@ + PROCESS_NAME@ + "] "@ + decimal(stamp)
}

/// Everything needed to show one message box.
pub struct MsgBoxRequest {
    /// The NUL-terminated UTF-16 message text.
    pub text: Vec<u16>,
    /// The NUL-terminated UTF-16 window title.
    pub title: Vec<u16>,
    /// The style flags passed to `MessageBoxExW`.
    pub flags: u32,
    /// Auto-close timeout in milliseconds; `0` means no timeout.
    pub timeout_ms: u64,
}

impl MsgBoxRequest {
    /// Whether a background closer must dismiss this dialog after its timeout.
    pub fn closes_on_timeout(&self) -> (r: bool)
        ensures
            r == (self.timeout_ms != 0),
    {
        self.timeout_ms != 0
    }
}

/// The title of a dialog as text.
fn dialog_title_text(title: &str, kind: MsgBoxType, stamp: u128) -> (r: String)
    ensures
        r@ == dialog_title(title@, kind, stamp as nat),
{
    let t = normalize_text(title);
    let mut full = if t.as_str().is_empty() {
        kind.to_string()
    } else {
        t
    };
    full.append(" [");
    full.append(PROCESS_NAME);
    full.append("] ");
    let mut digits: Vec<char> = Vec::new();
    push_decimal(&mut digits, stamp);
    let digits = string_of(&digits);
    full.append(digits.as_str());
    assert(digits@ =~= decimal(stamp as nat));
    full
}

/// Prepares a custom Windows message box.
///
/// The message is normalized; the title is normalized and falls back to the
/// name of `msgbox_type` when empty, then gets the suffix ` [win_msgbox] `
/// followed by `stamp`, the current time in nanoseconds since the Unix epoch.
/// The flags combine the button and icon styles with MB_SETFOREGROUND and
/// MB_SYSTEMMODAL.
pub fn custom_msgbox(
    msg: &str,
    title: &str,
    msgbox_type: MsgBoxType,
    msgboxbtn_type: MsgBtnType,
    timeout_ms: u64,
    stamp: u128,
) -> (r: MsgBoxRequest)
    ensures
        r.text@ == wide(normalized(msg@)),
        r.title@ == wide(dialog_title(title@, msgbox_type, stamp as nat)),
        r.flags == dialog_flags(msgboxbtn_type, msgbox_type),
        r.timeout_ms == timeout_ms,
{
    let text = normalize_text(msg);
    let title_text = dialog_title_text(title, msgbox_type, stamp);
    let flags = msgboxbtn_type.to_u32() | msgbox_type.to_u32() | MB_SETFOREGROUND | MB_SYSTEMMODAL;
    MsgBoxRequest {
        text: to_wide(text.as_str()),
        title: to_wide(title_text.as_str()),
        flags,
        timeout_ms,
    }
}

/// Prepares an information message box: blue "i" icon, OK button.
pub fn info_msgbox(msg: &str, title: &str, timeout_ms: u64, stamp: u128) -> (r: MsgBoxRequest)
    ensures
        r.text@ == wide(normalized(msg@)),
        r.title@ == wide(dialog_title(title@, MsgBoxType::Info, stamp as nat)),
        r.flags == dialog_flags(MsgBtnType::OkOnly, MsgBoxType::Info),
        r.timeout_ms == timeout_ms,
{
    custom_msgbox(msg, title, MsgBoxType::Info, MsgBtnType::OkOnly, timeout_ms, stamp)
}

/// Prepares an error message box: red X icon, OK button.
pub fn error_msgbox(msg: &str, title: &str, timeout_ms: u64, stamp: u128) -> (r: MsgBoxRequest)
    ensures
        r.text@ == wide(normalized(msg@)),
        r.title@ == wide(dialog_title(title@, MsgBoxType::Error, stamp as nat)),
        r.flags == dialog_flags(MsgBtnType::OkOnly, MsgBoxType::Error),
        r.timeout_ms == timeout_ms,
{
    custom_msgbox(msg, title, MsgBoxType::Error, MsgBtnType::OkOnly, timeout_ms, stamp)
}

/// Prepares a warning message box: yellow "!" icon, OK button.
pub fn warn_msgbox(msg: &str, title: &str, timeout_ms: u64, stamp: u128) -> (r: MsgBoxRequest)
    ensures
        r.text@ == wide(normalized(msg@)),
        r.title@ == wide(dialog_title(title@, MsgBoxType::Warn, stamp as nat)),
        r.flags == dialog_flags(MsgBtnType::OkOnly, MsgBoxType::Warn),
        r.timeout_ms == timeout_ms,
{
    custom_msgbox(msg, title, MsgBoxType::Warn, MsgBtnType::OkOnly, timeout_ms, stamp)
}

/// Prepares a Yes/No question dialog: blue "?" icon, Yes and No buttons.
pub fn quest_msgbox_yesno(msg: &str, title: &str, timeout_ms: u64, stamp: u128) -> (r:
    MsgBoxRequest)
    ensures
        r.text@ == wide(normalized(msg@)),
        r.title@ == wide(dialog_title(title@, MsgBoxType::Quest, stamp as nat)),
        r.flags == dialog_flags(MsgBtnType::YesNo, MsgBoxType::Quest),
        r.timeout_ms == timeout_ms,
{
    custom_msgbox(msg, title, MsgBoxType::Quest, MsgBtnType::YesNo, timeout_ms, stamp)
}

/// Prepares an OK/Cancel question dialog: blue "?" icon, OK and Cancel buttons.
pub fn quest_msgbox_okcancel(msg: &str, title: &str, timeout_ms: u64, stamp: u128) -> (r:
    MsgBoxRequest)
    ensures
        r.text@ == wide(normalized(msg@)),
        r.title@ == wide(dialog_title(title@, MsgBoxType::Quest, stamp as nat)),
        r.flags == dialog_flags(MsgBtnType::OkCancel, MsgBoxType::Quest),
        r.timeout_ms == timeout_ms,
{
    custom_msgbox(msg, title, MsgBoxType::Quest, MsgBtnType::OkCancel, timeout_ms, stamp)
}

/// What a message box call reports: `-1` when the timeout closer dismissed
/// the dialog, otherwise the button code that `MessageBoxExW` returned
/// (`1` OK, `2` Cancel, `6` Yes, `7` No).
pub fn msgbox_outcome(api_result: i32, timed_out: bool) -> (r: i32)
    ensures
        timed_out ==> r == -1,
        !timed_out ==> r == api_result,
{
    if timed_out {
        -1
    } else {
        api_result
    }
}

/// Reading a button flag back gives the button type it came from, and only
/// the flags of button types are read back at all.
pub proof fn lemma_btn_code_round_trip(t: MsgBtnType, v: u32)
    ensures
        MsgBtnType::of_code(t.code()) == Some(t),
        MsgBtnType::of_code(v) matches Some(u) ==> u.code() == v,
{
}

/// Reading an icon flag back gives the icon style it came from, and only the
/// flags of icon styles are read back at all.
pub proof fn lemma_icon_code_round_trip(t: MsgBoxType, v: u32)
    ensures
        MsgBoxType::of_code(t.code()) == Some(t),
        MsgBoxType::of_code(v) matches Some(u) ==> u.code() == v,
{
}

proof fn lemma_flag_bits(b: u32, k: u32)
    requires
        b == 0 || b == 1 || b == 4,
        k == 0x10 || k == 0x20 || k == 0x30 || k == 0x40,
    ensures
        (b | k | 0x10000u32 | 0x1000u32) & 0xF == b,
        (b | k | 0x10000u32 | 0x1000u32) & 0xF0 == k,
        (b | k | 0x10000u32 | 0x1000u32) & 0x11000 == 0x11000,
        (b | k | 0x10000u32 | 0x1000u32) & !0x110FFu32 == 0,
{
    assert((b | k | 0x10000u32 | 0x1000u32) & 0xF == b) by (bit_vector)
        requires
            b == 0 || b == 1 || b == 4,
            k == 0x10 || k == 0x20 || k == 0x30 || k == 0x40,
    ;
    assert((b | k | 0x10000u32 | 0x1000u32) & 0xF0 == k) by (bit_vector)
        requires
            b == 0 || b == 1 || b == 4,
            k == 0x10 || k == 0x20 || k == 0x30 || k == 0x40,
    ;
    assert((b | k | 0x10000u32 | 0x1000u32) & 0x11000 == 0x11000) by (bit_vector);
    assert((b | k | 0x10000u32 | 0x1000u32) & !0x110FFu32 == 0) by (bit_vector)
        requires
            b == 0 || b == 1 || b == 4,
            k == 0x10 || k == 0x20 || k == 0x30 || k == 0x40,
    ;
}

/// The flags of a dialog carry the button style in their low four bits, the
/// icon style in the next four, always MB_SETFOREGROUND and MB_SYSTEMMODAL,
/// and nothing else.
pub proof fn lemma_flags_decode(btn: MsgBtnType, kind: MsgBoxType)
    ensures
        dialog_flags(btn, kind) & 0xF == btn.code(),
        dialog_flags(btn, kind) & 0xF0 == kind.code(),
        dialog_flags(btn, kind) & (MB_SETFOREGROUND | MB_SYSTEMMODAL) == MB_SETFOREGROUND
            | MB_SYSTEMMODAL,
        dialog_flags(btn, kind) & !0x110FFu32 == 0,
{
    lemma_flag_bits(btn.code(), kind.code());
    assert(MB_SETFOREGROUND | MB_SYSTEMMODAL == 0x11000u32) by (bit_vector);
}

/// Dialogs created at different times get different window titles, which is
/// what lets the timeout closer find the one dialog it belongs to.
pub proof fn lemma_titles_unique(title: Seq<char>, kind: MsgBoxType, s1: nat, s2: nat)
    requires
        s1 != s2,
    ensures
        dialog_title(title, kind, s1) != dialog_title(title, kind, s2),
{
    let prefix = base_title(title, kind) + " ["@ + PROCESS_NAME@ + "] "@;
    let t1 = dialog_title(title, kind, s1);
    let t2 = dialog_title(title, kind, s2);
    if t1 == t2 {
        assert(t1.subrange(prefix.len() as int, t1.len() as int) =~= decimal(s1));
        assert(t2.subrange(prefix.len() as int, t2.len() as int) =~= decimal(s2));
        crate::text::lemma_decimal_injective(s1, s2);
    }
}


/// A title that is not empty after normalization is shown as normalized,
/// whatever the icon style; only an empty one is replaced by the style's name.
pub proof fn lemma_title_kept(title: Seq<char>, kind: MsgBoxType)
    ensures
        normalized(title).len() > 0 ==> base_title(title, kind) == normalized(title),
        normalized(title).len() == 0 ==> base_title(title, kind) == kind.name(),
{
}

/// The icon style changes a dialog's title only when the caller's title is
/// empty after normalization.
pub proof fn lemma_title_independent_of_style(
    title: Seq<char>,
    k1: MsgBoxType,
    k2: MsgBoxType,
    stamp: nat,
)
    requires
        normalized(title).len() > 0,
    ensures
        dialog_title(title, k1, stamp) == dialog_title(title, k2, stamp),
        dialog_title(title, k1, stamp).take(normalized(title).len() as int) == normalized(title),
{
    let n = normalized(title);
    assert(dialog_title(title, k1, stamp).take(n.len() as int) =~= n);
}

} // verus!

//! The entry point for C and C++ callers, which pass NUL-terminated UTF-16
//! strings and numeric style codes.

use vstd::prelude::*;

use crate::msgbox::{
    MsgBoxRequest, MsgBoxType, MsgBtnType, custom_msgbox, dialog_flags, dialog_title,
};
use crate::text::{decode_utf16_lossy, decode_wide, normalized, until_nul, wide};

verus! {

/// The text that a wide-string argument stands for: nothing for a null
/// pointer, otherwise its code units up to the first NUL, decoded lossily.
pub open spec fn wide_text(units: Option<&[u16]>) -> Seq<char> {
    match units {
        None => seq![],
        Some(u) => decode_utf16_lossy(until_nul(u@)),
    }
}

/// Converts a NUL-terminated UTF-16 string to a `String`.
///
/// `None` stands for a null pointer and gives an empty string; otherwise the
/// slice holds the units the pointer points at, and decoding stops at the
/// first NUL unit. Unpaired surrogates become U+FFFD.
pub fn wide_ptr_to_string(ptr: Option<&[u16]>) -> (r: String)
    ensures
        r@ == wide_text(ptr),
{
    match ptr {
        None => String::new(),
        Some(units) => decode_wide(units),
    }
}

/// Prepares a custom message box for a C or C++ caller.
///
/// `msgbox_type` must be one of the icon codes 0x10, 0x20, 0x30, 0x40 and
/// `msgboxbtn_type` one of the button codes 0x0, 0x1, 0x4; otherwise the result
/// is `None`, which the exported function reports as `0` without showing
/// anything. Null strings count as empty.
pub fn custom_msgbox_w(
    msg: Option<&[u16]>,
    title: Option<&[u16]>,
    msgbox_type: u32,
    msgboxbtn_type: u32,
    timeout_ms: u64,
    stamp: u128,
) -> (r: Option<MsgBoxRequest>)
    ensures
        r is None <==> (MsgBoxType::of_code(msgbox_type) is None || MsgBtnType::of_code(
            msgboxbtn_type,
        ) is None),
        r matches Some(req) ==> {
            let kind = MsgBoxType::of_code(msgbox_type)->0;
            let btn = MsgBtnType::of_code(msgboxbtn_type)->0;
            &&& req.text@ == wide(normalized(wide_text(msg)))
            &&& req.title@ == wide(dialog_title(wide_text(title), kind, stamp as nat))
            &&& req.flags == dialog_flags(btn, kind)
            &&& req.timeout_ms == timeout_ms
        },
{
    let kind = match MsgBoxType::from_u32(msgbox_type) {
        Some(k) => k,
        None => return None,
    };
    let btn = match MsgBtnType::from_u32(msgboxbtn_type) {
        Some(b) => b,
        None => return None,
    };
    let msg = wide_ptr_to_string(msg);
    let title = wide_ptr_to_string(title);
    Some(custom_msgbox(msg.as_str(), title.as_str(), kind, btn, timeout_ms, stamp))
}

} // verus!

verus! {

/// A text without NUL characters, converted to its wide form and read back
/// as a C string, is the text itself.
pub proof fn lemma_wide_string_round_trip(s: Seq<char>, units: &[u16])
    requires
        units@ == wide(s),
        !s.contains('\0'),
    ensures
        wide_text(Some(units)) == s,
{
    crate::text::lemma_wide_round_trip(s);
}

} // verus!

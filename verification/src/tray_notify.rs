//! Balloon tips on an existing system tray icon.

use vstd::prelude::*;

use crate::msgbox::PROCESS_NAME;
use crate::text::{to_wide, wide};
use crate::win32::{HWND, NIF_INFO, NIIF_INFO, NOTIFYICONDATAW};

verus! {

/// Icon types for system tray balloon notifications.
///
/// These correspond to the `dwInfoFlags` parameter in `NOTIFYICONDATAW`.
/// Currently, only `Info` is used; `Warning` and `Error` are reserved for
/// future use.
#[derive(Clone, Copy, Debug, PartialEq, Eq, Structural)]
pub enum NotifyIconType {
    /// Standard information icon (blue "i")
    Info,
    /// Warning icon (yellow "!"), reserved for future use
    Warning,
    /// Error icon (red "X"), reserved for future use
    Error,
}

/// The most code units of the balloon title that are copied.
pub const INFO_TITLE_UNITS: usize = 63;

/// The most code units of the balloon text that are copied.
pub const INFO_TEXT_UNITS: usize = 255;

/// Unit `i` of a fixed-size text field filled with at most `cap` leading
/// units of `src` and zeros after them.
pub open spec fn field_unit(src: Seq<u16>, cap: nat, i: int) -> u16 {
    if i < cap && i < src.len() {
        src[i]
    } else {
        0
    }
}

/// A zeroed array of `N` units with at most `cap` leading units of `src`
/// copied into it.
fn truncated_field<const N: usize>(src: &Vec<u16>, cap: usize) -> (r: [u16; N])
    requires
        cap < N,
    ensures
        forall|i: int| 0 <= i < N ==> #[trigger] r@[i] == field_unit(src@, cap as nat, i),
{
    let mut out: [u16; N] = [0u16; N];
    let mut i: usize = 0;
    while i < N
        invariant
            cap < N,
            i <= N,
            out@.len() == N,
            forall|k: int| 0 <= k < i ==> #[trigger] out@[k] == field_unit(src@, cap as nat, k),
            forall|k: int| i <= k < N ==> #[trigger] out@[k] == 0,
        decreases N - i,
    {
        if i < cap && i < src.len() {
            out[i] = src[i];
        }
        i = i + 1;
    }
    out
}

/// Prepares a balloon tip for the tray icon `icon_id` of window `hwnd`.
///
/// The title is the crate name and the text is `msg`, each converted to
/// UTF-16 and cut to at most 63 and 255 units; the rest of each field stays
/// zero, so both are always NUL-terminated. The flags select the balloon
/// fields (NIF_INFO) and the information icon (NIIF_INFO); every other field is
/// zero but `cbSize`, which is `cb_size`, the byte size of the C-layout
/// structure passed to `Shell_NotifyIconW`.
pub fn notify_msgbox(hwnd: HWND, msg: &str, icon_id: u32, cb_size: u32) -> (r: NOTIFYICONDATAW)
    ensures
        r.cbSize == cb_size,
        r.hWnd == hwnd,
        r.uID == icon_id,
        r.uFlags == NIF_INFO,
        r.dwInfoFlags == NIIF_INFO,
        r.uCallbackMessage == 0,
        r.hIcon == 0,
        r.dwState == 0,
        r.dwStateMask == 0,
        r.uTimeoutOrVersion == 0,
        r.hBalloonIcon == 0,
        forall|i: int| 0 <= i < 128 ==> #[trigger] r.szTip@[i] == 0,
        forall|i: int| 0 <= i < 16 ==> #[trigger] r.guidItem@[i] == 0,
        forall|i: int|
            0 <= i < 64 ==> #[trigger] r.szInfoTitle@[i] == field_unit(wide(PROCESS_NAME@), 63, i),
        forall|i: int| 0 <= i < 256 ==> #[trigger] r.szInfo@[i] == field_unit(wide(msg@), 255, i),
        forall|i: int|
            0 <= i < 255 && i < wide(msg@).len() ==> #[trigger] r.szInfo@[i] == wide(msg@)[i],
        forall|i: int|
            0 <= i < 63 && i < wide(PROCESS_NAME@).len() ==> #[trigger] r.szInfoTitle@[i] == wide(
                PROCESS_NAME@,
            )[i],
        r.szInfo@[255] == 0,
        r.szInfoTitle@[63] == 0,
{
    let title_w = to_wide(PROCESS_NAME);
    let msg_w = to_wide(msg);
    let info_title: [u16; 64] = truncated_field(&title_w, INFO_TITLE_UNITS);
    let info: [u16; 256] = truncated_field(&msg_w, INFO_TEXT_UNITS);
    NOTIFYICONDATAW {
        cbSize: cb_size,
        hWnd: hwnd,
        uID: icon_id,
        uFlags: NIF_INFO,
        uCallbackMessage: 0,
        hIcon: 0,
        szTip: [0u16; 128],
        dwState: 0,
        dwStateMask: 0,
        szInfo: info,
        uTimeoutOrVersion: 0,
        szInfoTitle: info_title,
        dwInfoFlags: NIIF_INFO,
        guidItem: [0u8; 16],
        hBalloonIcon: 0,
    }
}


/// A text field holds the source units unchanged up to its capacity and the
/// source's end, and zeros after them: the leading units of the field are a
/// prefix of the source.
pub proof fn lemma_field_is_prefix(src: Seq<u16>, cap: nat, n: nat)
    ensures
        forall|i: int|
            0 <= i < n && i < cap && i < src.len() ==> #[trigger] field_unit(src, cap, i)
                == src[i],
        forall|i: int| 0 <= i < n && (i >= cap || i >= src.len()) ==> #[trigger] field_unit(
            src,
            cap,
            i,
        ) == 0,
        ({
            let k = if cap < src.len() {
                cap as int
            } else {
                src.len() as int
            };
            k <= n ==> Seq::new(n, |i: int| field_unit(src, cap, i)).take(k) =~= src.take(k)
        }),
{
}

} // verus!

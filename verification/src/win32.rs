//! Windows API types and constants that the dialog logic works with.
//!
//! The structures here are plain data; the application crate holds their
//! C-layout counterparts and converts between the two at the API boundary.

use vstd::prelude::*;

verus! {

/// Window handle (`HWND`). A value of `0` represents no window (null).
pub type HWND = isize;

/// Makes the message box system-modal (MB_SYSTEMMODAL).
pub const MB_SYSTEMMODAL: u32 = 0x1000;

/// Brings the message box to the foreground (MB_SETFOREGROUND).
pub const MB_SETFOREGROUND: u32 = 0x10000;

/// Window message: close the window (WM_CLOSE).
pub const WM_CLOSE: u32 = 0x0010;

/// Shell_NotifyIconW message: modify an existing tray icon (NIM_MODIFY).
pub const NIM_MODIFY: u32 = 0x00000001;

/// NOTIFYICONDATAW flag: the `szInfo` and `szInfoTitle` fields are valid (NIF_INFO).
pub const NIF_INFO: u32 = 0x00000010;

/// Balloon notification info flag: show an information icon (NIIF_INFO).
pub const NIIF_INFO: u32 = 0x00000001;

/// Popup window style (WS_POPUP).
pub const WS_POPUP: u32 = 0x80000000;

/// Window has a title bar (WS_CAPTION = WS_BORDER | WS_DLGFRAME).
pub const WS_CAPTION: u32 = 0x00C00000;

/// Window has a system menu (close button) (WS_SYSMENU).
pub const WS_SYSMENU: u32 = 0x00080000;

/// Initially visible window (WS_VISIBLE).
pub const WS_VISIBLE: u32 = 0x10000000;

/// Child window style (WS_CHILD).
pub const WS_CHILD: u32 = 0x40000000;

/// Window has a vertical scroll bar (WS_VSCROLL).
pub const WS_VSCROLL: u32 = 0x00200000;

/// Window is topmost (always on top) (WS_EX_TOPMOST).
pub const WS_EX_TOPMOST: u32 = 0x00000008;

/// Window does not steal focus when shown (WS_EX_NOACTIVATE).
pub const WS_EX_NOACTIVATE: u32 = 0x08000000;

/// Tool window style (thin title bar, no taskbar entry) (WS_EX_TOOLWINDOW).
pub const WS_EX_TOOLWINDOW: u32 = 0x00000080;

/// Multi-line edit control (ES_MULTILINE).
pub const ES_MULTILINE: u32 = 0x0004;

/// Read-only edit control (ES_READONLY).
pub const ES_READONLY: u32 = 0x0800;

/// Auto-vertical scroll for edit control (ES_AUTOVSCROLL).
pub const ES_AUTOVSCROLL: u32 = 0x0040;

/// Sent when a window is created (WM_CREATE).
pub const WM_CREATE: u32 = 0x0001;

/// Sent when a window is being destroyed (WM_DESTROY).
pub const WM_DESTROY: u32 = 0x0002;

/// Sent when a timer fires (WM_TIMER).
pub const WM_TIMER: u32 = 0x0113;

/// Sets the font for a control (WM_SETFONT).
pub const WM_SETFONT: u32 = 0x0030;

/// Sent after the window is destroyed (WM_NCDESTROY).
pub const WM_NCDESTROY: u32 = 0x0082;

/// Retrieves the work area (screen excluding taskbar) (SPI_GETWORKAREA).
pub const SPI_GETWORKAREA: u32 = 0x0030;

/// Index for retrieving/setting user data associated with a window (GWLP_USERDATA).
pub const GWLP_USERDATA: i32 = -21;

/// Normal font weight (FW_NORMAL = 400).
pub const FW_NORMAL: i32 = 400;

/// Default character set (DEFAULT_CHARSET).
pub const DEFAULT_CHARSET: u32 = 1;

/// Default output precision (OUT_DEFAULT_PRECIS).
pub const OUT_DEFAULT_PRECIS: u32 = 0;

/// Default clip precision (CLIP_DEFAULT_PRECIS).
pub const CLIP_DEFAULT_PRECIS: u32 = 0;

/// ClearType antialiasing quality (CLEARTYPE_QUALITY).
pub const CLEARTYPE_QUALITY: u32 = 5;

/// Variable-pitch font family (VARIABLE_PITCH).
pub const VARIABLE_PITCH: u32 = 2;

/// Swiss (sans-serif) font family (FF_SWISS).
pub const FF_SWISS: u32 = 0x20;

/// Shows the window without activating it (SW_SHOWNA).
pub const SW_SHOWNA: i32 = 8;

/// Per-monitor DPI awareness context v2 (DPI_AWARENESS_CONTEXT_PER_MONITOR_AWARE_V2).
pub const DPI_AWARENESS_CONTEXT_PER_MONITOR_AWARE_V2: isize = -4;

/// Windows `RECT` structure: the coordinates of a rectangle.
#[derive(Clone, Copy, Debug, PartialEq, Eq, Structural)]
pub struct RECT {
    /// X-coordinate of the left edge.
    pub left: i32,
    /// Y-coordinate of the top edge.
    pub top: i32,
    /// X-coordinate of the right edge.
    pub right: i32,
    /// Y-coordinate of the bottom edge.
    pub bottom: i32,
}

/// Windows `MSG` structure: a message from a thread's message queue.
#[allow(non_snake_case)]
#[derive(Clone, Copy, Debug, PartialEq, Eq, Structural)]
pub struct MSG {
    /// Handle to the window whose window procedure receives the message.
    pub hwnd: HWND,
    /// The message identifier.
    pub message: u32,
    /// Additional message-specific information.
    pub wParam: usize,
    /// Additional message-specific information.
    pub lParam: isize,
    /// The time at which the message was posted.
    pub time: u32,
    /// X-coordinate of the cursor position (in screen coordinates).
    pub pt_x: i32,
    /// Y-coordinate of the cursor position (in screen coordinates).
    pub pt_y: i32,
}

/// Windows `NOTIFYICONDATAW` structure: the data of a system tray icon.
///
/// `cbSize` is the byte size of the C-layout structure that the application
/// passes to the shell.
#[allow(non_snake_case)]
pub struct NOTIFYICONDATAW {
    /// Size of the C-layout structure, in bytes.
    pub cbSize: u32,
    /// Handle to the window that receives notification messages.
    pub hWnd: HWND,
    /// Application-defined identifier for the icon.
    pub uID: u32,
    /// Flags indicating which fields are valid (NIF_*).
    pub uFlags: u32,
    /// Application-defined callback message for the window.
    pub uCallbackMessage: u32,
    /// Handle to the icon.
    pub hIcon: isize,
    /// Tooltip text (max 128 characters).
    pub szTip: [u16; 128],
    /// State of the icon.
    pub dwState: u32,
    /// State mask.
    pub dwStateMask: u32,
    /// Balloon notification text (max 256 characters).
    pub szInfo: [u16; 256],
    /// Timeout or version information.
    pub uTimeoutOrVersion: u32,
    /// Balloon notification title (max 64 characters).
    pub szInfoTitle: [u16; 64],
    /// Icon flags for the balloon notification (NIIF_*).
    pub dwInfoFlags: u32,
    /// GUID for the icon (Windows 7+).
    pub guidItem: [u8; 16],
    /// Handle to a custom balloon icon.
    pub hBalloonIcon: isize,
}

} // verus!

# win_msgbox

Native Windows message boxes, auto-closing notification popups and tray
balloon tips.

- `src/` is the library, verified with Verus: text normalization and UTF-16
  conversion (`text`), dialog titles, style flags and results (`msgbox`), the
  C entry point's argument decoding (`c_msgbox`), the popup countdown, placement
  and thread registry (`popup_notify`), the balloon-tip payload (`tray_notify`)
  and the plain Windows data types (`win32`).
- `app/` makes the Windows API calls: it shows the dialogs the library
  prepares, runs the timeout and notification threads, and exports
  `custom_msgbox_w` to C and C++.
- `tests/` exercises the library on concrete values.

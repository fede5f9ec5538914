//! The style bits and result codes of the native message-box call.
//!
//! These are the documented, ABI-stable values of the platform's dialog
//! primitive: the low nibble selects the button combination, the next
//! nibble the icon, then the default button, the modality, and finally
//! the auxiliary behaviours, each group in bits of its own.

use vstd::prelude::*;

verus! {

/// The message box contains one push button: OK.
pub const MB_OK: u32 = 0x0;
/// The message box contains two push buttons: OK and Cancel.
pub const MB_OKCANCEL: u32 = 0x1;
/// The message box contains three push buttons: Abort, Retry, and Ignore.
pub const MB_ABORTRETRYIGNORE: u32 = 0x2;
/// The message box contains three push buttons: Yes, No, and Cancel.
pub const MB_YESNOCANCEL: u32 = 0x3;
/// The message box contains two push buttons: Yes and No.
pub const MB_YESNO: u32 = 0x4;
/// The message box contains two push buttons: Retry and Cancel.
pub const MB_RETRYCANCEL: u32 = 0x5;
/// The message box contains three push buttons: Cancel, Try Again, Continue.
pub const MB_CANCELTRYCONTINUE: u32 = 0x6;

/// A stop-sign icon appears in the message box.
pub const MB_ICONHAND: u32 = 0x10;
/// A question-mark icon appears in the message box.
pub const MB_ICONQUESTION: u32 = 0x20;
/// An exclamation-point icon appears in the message box.
pub const MB_ICONEXCLAMATION: u32 = 0x30;
/// An icon consisting of a lowercase letter i in a circle appears in the message box.
pub const MB_ICONASTERISK: u32 = 0x40;
/// An exclamation-point icon appears in the message box (alias of [`MB_ICONEXCLAMATION`]).
pub const MB_ICONWARNING: u32 = MB_ICONEXCLAMATION;
/// A stop-sign icon appears in the message box (alias of [`MB_ICONHAND`]).
pub const MB_ICONERROR: u32 = MB_ICONHAND;
/// An icon consisting of a lowercase letter i in a circle appears in the message box
/// (alias of [`MB_ICONASTERISK`]).
pub const MB_ICONINFORMATION: u32 = MB_ICONASTERISK;
/// A stop-sign icon appears in the message box (alias of [`MB_ICONHAND`]).
pub const MB_ICONSTOP: u32 = MB_ICONHAND;

/// The first button is the default button.
pub const MB_DEFBUTTON1: u32 = 0x0;
/// The second button is the default button.
pub const MB_DEFBUTTON2: u32 = 0x100;
/// The third button is the default button.
pub const MB_DEFBUTTON3: u32 = 0x200;
/// The fourth button is the default button.
pub const MB_DEFBUTTON4: u32 = 0x300;

/// The user must respond to the message box before continuing work in the owner window.
pub const MB_APPLMODAL: u32 = 0x0;
/// Application modal, and the message box additionally has the topmost window style.
pub const MB_SYSTEMMODAL: u32 = 0x1000;
/// Application modal, and all top-level windows of the calling thread are disabled
/// when no owner window is given.
pub const MB_TASKMODAL: u32 = 0x2000;

/// Adds a Help button to the message box.
pub const MB_HELP: u32 = 0x4000;
/// The message box becomes the foreground window.
pub const MB_SETFOREGROUND: u32 = 0x10000;
/// The message box is shown on the default desktop of the interactive window station.
pub const MB_DEFAULT_DESKTOP_ONLY: u32 = 0x20000;
/// The message box is created with the topmost window style.
pub const MB_TOPMOST: u32 = 0x40000;
/// The text is right-justified.
pub const MB_RIGHT: u32 = 0x80000;
/// Message and caption text use right-to-left reading order.
pub const MB_RTLREADING: u32 = 0x100000;
/// The caller is a service notifying the user of an event.
pub const MB_SERVICE_NOTIFICATION: u32 = 0x200000;

/// The OK button was selected.
pub const IDOK: i32 = 1;
/// The Cancel button was selected (or the dialog was dismissed with Escape).
pub const IDCANCEL: i32 = 2;
/// The Abort button was selected.
pub const IDABORT: i32 = 3;
/// The Retry button was selected.
pub const IDRETRY: i32 = 4;
/// The Ignore button was selected.
pub const IDIGNORE: i32 = 5;
/// The Yes button was selected.
pub const IDYES: i32 = 6;
/// The No button was selected.
pub const IDNO: i32 = 7;
/// The Try Again button was selected.
pub const IDTRYAGAIN: i32 = 10;
/// The Continue button was selected.
pub const IDCONTINUE: i32 = 11;

} // verus!

//! Message boxes over pre-encoded wide text.
//!
//! This module mirrors the main builder but takes text and title that are
//! already encoded as null-terminated UTF-16 buffers, so showing them skips
//! the conversion step entirely: the buffers are handed to the native call
//! verbatim, byte for byte.

use vstd::prelude::*;

use core::marker::PhantomData;

use crate::style;
use crate::DefaultButton;
use crate::Icon;
use crate::Invocation;
use crate::Modal;
use crate::Options;

verus! {

/// Whether a wide-character buffer carries the terminating zero unit the
/// native call requires.
pub open spec fn null_terminated(s: Seq<u16>) -> bool {
    s.len() > 0 && s[s.len() - 1] == 0
}

/// A builder for a modal dialog box whose text and title are pre-encoded,
/// null-terminated UTF-16 buffers.
///
/// The type of the message box is specified by `T` (See [Options] for available options).
#[derive(Debug)]
#[verifier::reject_recursive_types(T)]
pub struct MessageBox<T> {
    /// The icon of this message box.
    pub icon: Icon,
    /// The pre-encoded text inside the message box.
    pub text: Vec<u16>,
    /// The pre-encoded title of the message box (default is None).
    pub title: Option<Vec<u16>>,
    /// The owner window of the message box (default is `0` - no owner).
    pub hwnd: usize,
    /// Accumulated style flags for the creation of this message box.
    pub flags: u32,
    /// The response options of this message box.
    pub _response: PhantomData<T>,
}

impl<T> MessageBox<T> {
    /// Creates a new message box with a specified pre-encoded `text` to be
    /// displayed. The buffer is kept exactly as supplied.
    pub fn new(text: Vec<u16>) -> (r: Self)
        ensures
            r.icon == Icon::Information,
            r.text == text,
            r.title is None,
            r.hwnd == 0,
            r.flags == 0,
    {
        MessageBox {
            icon: Icon::Information,
            text,
            title: Option::None,
            hwnd: 0,
            flags: 0,
            _response: PhantomData,
        }
    }

    /// The [Icon] to be displayed in this message box.
    pub fn icon(self, icon: Icon) -> (r: Self)
        ensures
            r.icon == icon,
            r.text == self.text,
            r.title == self.title,
            r.hwnd == self.hwnd,
            r.flags == self.flags,
    {
        MessageBox { icon, ..self }
    }

    /// The pre-encoded dialog box title. If it is never set, the platform
    /// supplies its default title, **Error**. The buffer is kept exactly as
    /// supplied.
    pub fn title(self, title: Vec<u16>) -> (r: Self)
        ensures
            r.icon == self.icon,
            r.text == self.text,
            r.title == Option::Some(title),
            r.hwnd == self.hwnd,
            r.flags == self.flags,
    {
        MessageBox { title: Option::Some(title), ..self }
    }

    /// A handle to the owner window of the message box to be created.
    /// If this parameter is `0`, the message box has no owner window (default).
    pub fn hwnd(self, hwnd: usize) -> (r: Self)
        ensures
            r.icon == self.icon,
            r.text == self.text,
            r.title == self.title,
            r.hwnd == hwnd,
            r.flags == self.flags,
    {
        MessageBox { hwnd, ..self }
    }

    /// Set the modality of the dialog box. See [Modal] for options.
    pub fn modal(self, modal: Modal) -> (r: Self)
        ensures
            r.icon == self.icon,
            r.text == self.text,
            r.title == self.title,
            r.hwnd == self.hwnd,
            r.flags == self.flags | modal.spec_style(),
    {
        let flags = self.flags | modal.style();
        MessageBox { flags, ..self }
    }

    /// Set the default button of the dialog box. See [DefaultButton] for options.
    pub fn default_button(self, btn: DefaultButton) -> (r: Self)
        ensures
            r.icon == self.icon,
            r.text == self.text,
            r.title == self.title,
            r.hwnd == self.hwnd,
            r.flags == self.flags | btn.spec_style(),
    {
        let flags = self.flags | btn.style();
        MessageBox { flags, ..self }
    }

    /// Same as desktop of the interactive window station.
    /// If the current input desktop is not the default desktop, the dialog
    /// does not return until the user switches to the default desktop.
    pub fn default_desktop_only(self) -> (r: Self)
        ensures
            r.icon == self.icon,
            r.text == self.text,
            r.title == self.title,
            r.hwnd == self.hwnd,
            r.flags == self.flags | style::MB_DEFAULT_DESKTOP_ONLY,
    {
        let flags = self.flags | style::MB_DEFAULT_DESKTOP_ONLY;
        MessageBox { flags, ..self }
    }

    /// The text is right-justified.
    pub fn right(self) -> (r: Self)
        ensures
            r.icon == self.icon,
            r.text == self.text,
            r.title == self.title,
            r.hwnd == self.hwnd,
            r.flags == self.flags | style::MB_RIGHT,
    {
        let flags = self.flags | style::MB_RIGHT;
        MessageBox { flags, ..self }
    }

    /// Displays message and caption text using right-to-left reading order
    /// on Hebrew and Arabic systems.
    pub fn rtl_reading(self) -> (r: Self)
        ensures
            r.icon == self.icon,
            r.text == self.text,
            r.title == self.title,
            r.hwnd == self.hwnd,
            r.flags == self.flags | style::MB_RTLREADING,
    {
        let flags = self.flags | style::MB_RTLREADING;
        MessageBox { flags, ..self }
    }

    /// The message box becomes the foreground window.
    pub fn set_foreground(self) -> (r: Self)
        ensures
            r.icon == self.icon,
            r.text == self.text,
            r.title == self.title,
            r.hwnd == self.hwnd,
            r.flags == self.flags | style::MB_SETFOREGROUND,
    {
        let flags = self.flags | style::MB_SETFOREGROUND;
        MessageBox { flags, ..self }
    }

    /// The message box is created with the topmost window style.
    pub fn topmost(self) -> (r: Self)
        ensures
            r.icon == self.icon,
            r.text == self.text,
            r.title == self.title,
            r.hwnd == self.hwnd,
            r.flags == self.flags | style::MB_TOPMOST,
    {
        let flags = self.flags | style::MB_TOPMOST;
        MessageBox { flags, ..self }
    }

    /// The caller is a service notifying the user of an event.
    /// The function displays a message box on the current active desktop,
    /// even if there is no user logged on to the computer.
    ///
    /// If this is called, [`hwnd`](Self::hwnd) must not be called - it must
    /// remain `0`, so that the message box can appear on a desktop other than
    /// the desktop corresponding to the owner window.
    pub fn service_notification(self) -> (r: Self)
        ensures
            r.icon == self.icon,
            r.text == self.text,
            r.title == self.title,
            r.hwnd == self.hwnd,
            r.flags == self.flags | style::MB_SERVICE_NOTIFICATION,
    {
        let flags = self.flags | style::MB_SERVICE_NOTIFICATION;
        MessageBox { flags, ..self }
    }

    /// Adds a Help button to the message box.
    /// When the user clicks the Help button or presses F1,
    /// the system sends a help message to the owner.
    pub fn with_help(self) -> (r: Self)
        ensures
            r.icon == self.icon,
            r.text == self.text,
            r.title == self.title,
            r.hwnd == self.hwnd,
            r.flags == self.flags | style::MB_HELP,
    {
        let flags = self.flags | style::MB_HELP;
        MessageBox { flags, ..self }
    }

    /// Creates a new message box where its icon is set to [Exclamation](Icon::Exclamation).
    pub fn exclamation(text: Vec<u16>) -> (r: Self)
        ensures
            r.icon == Icon::Exclamation,
            r.text == text,
            r.title is None,
            r.hwnd == 0,
            r.flags == 0,
    {
        Self::new(text).icon(Icon::Exclamation)
    }

    /// Creates a new message box where its icon is set to [Warning](Icon::Warning).
    pub fn warning(text: Vec<u16>) -> (r: Self)
        ensures
            r.icon == Icon::Warning,
            r.text == text,
            r.title is None,
            r.hwnd == 0,
            r.flags == 0,
    {
        Self::new(text).icon(Icon::Warning)
    }

    /// Creates a new message box where its icon is set to [Information](Icon::Information).
    pub fn information(text: Vec<u16>) -> (r: Self)
        ensures
            r.icon == Icon::Information,
            r.text == text,
            r.title is None,
            r.hwnd == 0,
            r.flags == 0,
    {
        Self::new(text).icon(Icon::Information)
    }

    /// Creates a new message box where its icon is set to [Asterisk](Icon::Asterisk).
    pub fn asterisk(text: Vec<u16>) -> (r: Self)
        ensures
            r.icon == Icon::Asterisk,
            r.text == text,
            r.title is None,
            r.hwnd == 0,
            r.flags == 0,
    {
        Self::new(text).icon(Icon::Asterisk)
    }

    /// Creates a new message box where its icon is set to [Question](Icon::Question).
    pub fn question(text: Vec<u16>) -> (r: Self)
        ensures
            r.icon == Icon::Question,
            r.text == text,
            r.title is None,
            r.hwnd == 0,
            r.flags == 0,
    {
        Self::new(text).icon(Icon::Question)
    }

    /// Creates a new message box where its icon is set to [Stop](Icon::Stop).
    pub fn stop(text: Vec<u16>) -> (r: Self)
        ensures
            r.icon == Icon::Stop,
            r.text == text,
            r.title is None,
            r.hwnd == 0,
            r.flags == 0,
    {
        Self::new(text).icon(Icon::Stop)
    }

    /// Creates a new message box where its icon is set to [Error](Icon::Error).
    pub fn error(text: Vec<u16>) -> (r: Self)
        ensures
            r.icon == Icon::Error,
            r.text == text,
            r.title is None,
            r.hwnd == 0,
            r.flags == 0,
    {
        Self::new(text).icon(Icon::Error)
    }

    /// Creates a new message box where its icon is set to [Hand](Icon::Hand).
    pub fn hand(text: Vec<u16>) -> (r: Self)
        ensures
            r.icon == Icon::Hand,
            r.text == text,
            r.title is None,
            r.hwnd == 0,
            r.flags == 0,
    {
        Self::new(text).icon(Icon::Hand)
    }
}

impl<T: Options> MessageBox<T> {
    /// The fully composed style word of this message box: the button-set
    /// bits, the icon bits, and every accumulated flag, combined by
    /// bitwise or.
    pub open spec fn spec_style(self) -> u32 {
        T::spec_flags() | self.icon.spec_style() | self.flags
    }

    /// The fully composed style word of this message box.
    pub fn style(&self) -> (r: u32)
        ensures
            r == self.spec_style(),
    {
        T::flags() | self.icon.style() | self.flags
    }

    /// Composes the final style word and hands the pre-encoded buffers
    /// through verbatim: no transcoding takes place, the text and title the
    /// native call receives are exactly the buffers this builder was given.
    /// The caller vouches that they are valid, null-terminated UTF-16.
    pub fn prepare(self) -> (r: Invocation)
        requires
            null_terminated(self.text@),
            self.title matches Some(t) ==> null_terminated(t@),
        ensures
            r.hwnd == self.hwnd,
            r.style == self.spec_style(),
            r.text == self.text,
            r.title == self.title,
    {
        let style = self.style();
        Invocation { hwnd: self.hwnd, text: self.text, title: self.title, style }
    }
}

} // verus!

//! An ergonomic, verified model of the Windows message-box dialog:
//! a builder that accumulates icon, title, owner, modality and auxiliary
//! style flags, composes them into the single style word the native
//! `MessageBoxW` call expects, and maps the numeric result code back to a
//! strongly typed button outcome.

use vstd::prelude::*;

mod abort_retry_ignore;
mod cancel_try_again_continue;
pub mod laws;
mod okay;
mod okay_cancel;
pub mod raw;
mod retry_cancel;
pub mod style;
mod yes_no;
mod yes_no_cancel;

use core::marker::PhantomData;

pub use abort_retry_ignore::AbortRetryIgnore;
pub use cancel_try_again_continue::CancelTryAgainContinue;
pub use okay::Okay;
pub use okay_cancel::OkayCancel;
pub use retry_cancel::RetryCancel;
pub use yes_no::YesNo;
pub use yes_no_cancel::YesNoCancel;

verus! {

/// A raw diagnostic code reported by the platform when the dialog could not
/// be shown at all.
pub type Error = u32;

/// Whether `b` is one of the style values that select a button combination.
/// All of them live in the low nibble of the style word.
pub open spec fn is_button_set_flags(b: u32) -> bool {
    ||| b == style::MB_OK
    ||| b == style::MB_OKCANCEL
    ||| b == style::MB_ABORTRETRYIGNORE
    ||| b == style::MB_YESNOCANCEL
    ||| b == style::MB_YESNO
    ||| b == style::MB_RETRYCANCEL
    ||| b == style::MB_CANCELTRYCONTINUE
}

/// This trait is implemented for all possible options.
///
/// Each implementor is a closed set of button outcomes: it owns the style
/// bits that select its button combination, and a total mapping from the
/// platform's numeric result codes back into its outcomes.
pub trait Options: Sized {
    /// The style bits selecting this button combination.
    spec fn spec_flags() -> u32;

    /// The outcome that a given numeric result code stands for.
    spec fn spec_from_result(value: i32) -> Self;

    /// The flags this option requires to be shown.
    fn flags() -> (r: u32)
        ensures
            r == Self::spec_flags(),
    ;

    /// Maps a numeric result code of the native call to the outcome it
    /// stands for. Codes outside the documented set fall back to a
    /// designated default outcome, so the mapping is total.
    fn from_result(value: i32) -> (r: Self)
        ensures
            r == Self::spec_from_result(value),
    ;

    /// The button-combination bits are one of the seven documented values.
    proof fn lemma_flags_valid()
        ensures
            is_button_set_flags(Self::spec_flags()),
    ;
}

/// The icon to be displayed in a message box.
#[derive(Debug, Eq, PartialEq, Clone, Copy, Hash)]
pub enum Icon {
    /// An exclamation-point icon appears in the message box.
    Exclamation,
    /// An exclamation-point icon appears in the message box.
    Warning,
    /// An icon consisting of a lowercase letter i in a circle appears in the message box.
    Information,
    /// An icon consisting of a lowercase letter i in a circle appears in the message box.
    Asterisk,
    /// A question-mark icon appears in the message box.
    Question,
    /// A stop-sign icon appears in the message box.
    Stop,
    /// A stop-sign icon appears in the message box.
    Error,
    /// A stop-sign icon appears in the message box.
    Hand,
}

impl Icon {
    /// The style bits selecting this icon. Several icons deliberately share
    /// a bit pattern, mirroring the platform's own icon aliasing.
    pub open spec fn spec_style(self) -> u32 {
        match self {
            Icon::Exclamation => style::MB_ICONEXCLAMATION,
            Icon::Warning => style::MB_ICONWARNING,
            Icon::Information => style::MB_ICONINFORMATION,
            Icon::Asterisk => style::MB_ICONASTERISK,
            Icon::Question => style::MB_ICONQUESTION,
            Icon::Stop => style::MB_ICONSTOP,
            Icon::Error => style::MB_ICONERROR,
            Icon::Hand => style::MB_ICONHAND,
        }
    }

    /// The style bits selecting this icon.
    pub fn style(self) -> (r: u32)
        ensures
            r == self.spec_style(),
    {
        match self {
            Icon::Exclamation => style::MB_ICONEXCLAMATION,
            Icon::Warning => style::MB_ICONWARNING,
            Icon::Information => style::MB_ICONINFORMATION,
            Icon::Asterisk => style::MB_ICONASTERISK,
            Icon::Question => style::MB_ICONQUESTION,
            Icon::Stop => style::MB_ICONSTOP,
            Icon::Error => style::MB_ICONERROR,
            Icon::Hand => style::MB_ICONHAND,
        }
    }
}

/// Specifies the modality of the dialog box.
#[derive(Debug, Eq, PartialEq, Clone, Copy, Hash)]
pub enum Modal {
    /// The user must respond to the message box before continuing work in the
    /// owner window. The user can still move to the windows of other threads.
    Application,
    /// Same as [`Application`](Self::Application) except that the message box
    /// has the topmost window style.
    System,
    /// Same as [`Application`](Self::Application) except that all the
    /// top-level windows belonging to the current thread are disabled if no
    /// owner window was given.
    Task,
}

impl Modal {
    /// The style bits selecting this modality.
    pub open spec fn spec_style(self) -> u32 {
        match self {
            Modal::Application => style::MB_APPLMODAL,
            Modal::System => style::MB_SYSTEMMODAL,
            Modal::Task => style::MB_TASKMODAL,
        }
    }

    /// The style bits selecting this modality.
    pub fn style(self) -> (r: u32)
        ensures
            r == self.spec_style(),
    {
        match self {
            Modal::Application => style::MB_APPLMODAL,
            Modal::System => style::MB_SYSTEMMODAL,
            Modal::Task => style::MB_TASKMODAL,
        }
    }
}

impl Default for Modal {
    /// Application modality is the platform's default.
    fn default() -> (r: Self)
        ensures
            r == Modal::Application,
    {
        Modal::Application
    }
}

/// Specifies the default button of the dialog box.
///
/// The meaning of the nth button is determined by the type ([Options]).
#[derive(Debug, Eq, PartialEq, Clone, Copy, Hash)]
pub enum DefaultButton {
    /// The first button is the default button.
    DefaultButton1,
    /// The second button is the default button.
    DefaultButton2,
    /// The third button is the default button.
    DefaultButton3,
    /// The fourth button is the default button.
    DefaultButton4,
}

impl DefaultButton {
    /// The style bits selecting this default button.
    pub open spec fn spec_style(self) -> u32 {
        match self {
            DefaultButton::DefaultButton1 => style::MB_DEFBUTTON1,
            DefaultButton::DefaultButton2 => style::MB_DEFBUTTON2,
            DefaultButton::DefaultButton3 => style::MB_DEFBUTTON3,
            DefaultButton::DefaultButton4 => style::MB_DEFBUTTON4,
        }
    }

    /// The style bits selecting this default button.
    pub fn style(self) -> (r: u32)
        ensures
            r == self.spec_style(),
    {
        match self {
            DefaultButton::DefaultButton1 => style::MB_DEFBUTTON1,
            DefaultButton::DefaultButton2 => style::MB_DEFBUTTON2,
            DefaultButton::DefaultButton3 => style::MB_DEFBUTTON3,
            DefaultButton::DefaultButton4 => style::MB_DEFBUTTON4,
        }
    }
}

impl Default for DefaultButton {
    /// The first button is pre-focused unless configured otherwise.
    fn default() -> (r: Self)
        ensures
            r == DefaultButton::DefaultButton1,
    {
        DefaultButton::DefaultButton1
    }
}

/// The UTF-16 code units that a string's characters encode to.
pub uninterp spec fn utf16_of(s: Seq<char>) -> Seq<u16>;

/// The null-terminated wide form of a string: its UTF-16 code units with a
/// terminating zero unit appended.
pub open spec fn wide_null(s: Seq<char>) -> Seq<u16> {
    utf16_of(s).push(0)
}

/// Relies on str::encode_utf16: the returned code units are a function of the
/// string's characters alone.
#[verifier::external_body]
fn utf16_units(s: &str) -> (r: Vec<u16>)
    ensures
        r@ == utf16_of(s@),
{
    s.encode_utf16().collect()
}

/// Encodes a string into the null-terminated wide form the native call expects.
fn encode_wide(s: &str) -> (r: Vec<u16>)
    ensures
        r@ == wide_null(s@),
{
    let mut v = utf16_units(s);
    v.push(0);
    v
}

/// Whether an encoded optional title corresponds to the requested one:
/// absent stays absent (the platform then supplies its own default title),
/// present is encoded to null-terminated wide form.
pub open spec fn wide_title_matches(title: Option<&str>, out: Option<Vec<u16>>) -> bool {
    match (title, out) {
        (Option::None, Option::None) => true,
        (Option::Some(t), Option::Some(v)) => v@ == wide_null(t@),
        _ => false,
    }
}

/// Everything the native dialog call takes: the owner window, the encoded
/// text and optional title, and the fully composed style word.
pub struct Invocation {
    /// The owner window of the message box (`0` means no owner).
    pub hwnd: usize,
    /// The null-terminated wide text of the message box.
    pub text: Vec<u16>,
    /// The null-terminated wide title, or `None` for the platform's default title.
    pub title: Option<Vec<u16>>,
    /// The composed style word: button-set, icon, modality, default-button
    /// and auxiliary bits combined.
    pub style: u32,
}

/// A builder for a modal dialog box that contains a system icon,
/// a set of buttons, and a brief application-specific message, such as status
/// or error information.
///
/// The type of the message box is specified by `T` (See [Options] for available options).
#[derive(Debug)]
#[verifier::reject_recursive_types(T)]
pub struct MessageBox<'a, T> {
    /// The icon of this message box.
    pub icon: Icon,
    /// The text inside the message box.
    pub text: &'a str,
    /// The title of the message box (default is None).
    pub title: Option<&'a str>,
    /// The owner window of the message box (default is `0` - no owner).
    pub hwnd: usize,
    /// Accumulated style flags for the creation of this message box.
    pub flags: u32,
    /// The response options of this message box.
    pub _response: PhantomData<T>,
}

impl<'a, T> MessageBox<'a, T> {
    /// Creates a new message box with a specified `text` to be displayed.
    /// If the string consists of more than one line, you can separate the
    /// lines using a carriage return and/or linefeed character between each line.
    pub fn new(text: &'a str) -> (r: Self)
        ensures
            r.icon == Icon::Information,
            r.text == text,
            r.title is None,
            r.hwnd == 0,
            r.flags == 0,
    {
        MessageBox {
            icon: Icon::Information,
            text,
            title: Option::None,
            hwnd: 0,
            flags: 0,
            _response: PhantomData,
        }
    }

    /// The [Icon] to be displayed in this message box.
    pub fn icon(self, icon: Icon) -> (r: Self)
        ensures
            r.icon == icon,
            r.text == self.text,
            r.title == self.title,
            r.hwnd == self.hwnd,
            r.flags == self.flags,
    {
        MessageBox { icon, ..self }
    }

    /// The dialog box title. If this parameter is **null**, the default title is **Error**.
    pub fn title(self, title: &'a str) -> (r: Self)
        ensures
            r.icon == self.icon,
            r.text == self.text,
            r.title == Option::Some(title),
            r.hwnd == self.hwnd,
            r.flags == self.flags,
    {
        MessageBox { title: Option::Some(title), ..self }
    }

    /// A handle to the owner window of the message box to be created.
    /// If this parameter is `0`, the message box has no owner window (default).
    pub fn hwnd(self, hwnd: usize) -> (r: Self)
        ensures
            r.icon == self.icon,
            r.text == self.text,
            r.title == self.title,
            r.hwnd == hwnd,
            r.flags == self.flags,
    {
        MessageBox { hwnd, ..self }
    }

    /// Set the modality of the dialog box. See [Modal] for options.
    pub fn modal(self, modal: Modal) -> (r: Self)
        ensures
            r.icon == self.icon,
            r.text == self.text,
            r.title == self.title,
            r.hwnd == self.hwnd,
            r.flags == self.flags | modal.spec_style(),
    {
        let flags = self.flags | modal.style();
        MessageBox { flags, ..self }
    }

    /// Set the default button of the dialog box. See [DefaultButton] for options.
    pub fn default_button(self, btn: DefaultButton) -> (r: Self)
        ensures
            r.icon == self.icon,
            r.text == self.text,
            r.title == self.title,
            r.hwnd == self.hwnd,
            r.flags == self.flags | btn.spec_style(),
    {
        let flags = self.flags | btn.style();
        MessageBox { flags, ..self }
    }

    /// Same as desktop of the interactive window station.
    /// If the current input desktop is not the default desktop, the dialog
    /// does not return until the user switches to the default desktop.
    pub fn default_desktop_only(self) -> (r: Self)
        ensures
            r.icon == self.icon,
            r.text == self.text,
            r.title == self.title,
            r.hwnd == self.hwnd,
            r.flags == self.flags | style::MB_DEFAULT_DESKTOP_ONLY,
    {
        let flags = self.flags | style::MB_DEFAULT_DESKTOP_ONLY;
        MessageBox { flags, ..self }
    }

    /// The text is right-justified.
    pub fn right(self) -> (r: Self)
        ensures
            r.icon == self.icon,
            r.text == self.text,
            r.title == self.title,
            r.hwnd == self.hwnd,
            r.flags == self.flags | style::MB_RIGHT,
    {
        let flags = self.flags | style::MB_RIGHT;
        MessageBox { flags, ..self }
    }

    /// Displays message and caption text using right-to-left reading order
    /// on Hebrew and Arabic systems.
    pub fn rtl_reading(self) -> (r: Self)
        ensures
            r.icon == self.icon,
            r.text == self.text,
            r.title == self.title,
            r.hwnd == self.hwnd,
            r.flags == self.flags | style::MB_RTLREADING,
    {
        let flags = self.flags | style::MB_RTLREADING;
        MessageBox { flags, ..self }
    }

    /// The message box becomes the foreground window.
    pub fn set_foreground(self) -> (r: Self)
        ensures
            r.icon == self.icon,
            r.text == self.text,
            r.title == self.title,
            r.hwnd == self.hwnd,
            r.flags == self.flags | style::MB_SETFOREGROUND,
    {
        let flags = self.flags | style::MB_SETFOREGROUND;
        MessageBox { flags, ..self }
    }

    /// The message box is created with the topmost window style.
    pub fn topmost(self) -> (r: Self)
        ensures
            r.icon == self.icon,
            r.text == self.text,
            r.title == self.title,
            r.hwnd == self.hwnd,
            r.flags == self.flags | style::MB_TOPMOST,
    {
        let flags = self.flags | style::MB_TOPMOST;
        MessageBox { flags, ..self }
    }

    /// The caller is a service notifying the user of an event.
    /// The function displays a message box on the current active desktop,
    /// even if there is no user logged on to the computer.
    ///
    /// If this is called, [`hwnd`](Self::hwnd) must not be called - it must
    /// remain `0`, so that the message box can appear on a desktop other than
    /// the desktop corresponding to the owner window.
    pub fn service_notification(self) -> (r: Self)
        ensures
            r.icon == self.icon,
            r.text == self.text,
            r.title == self.title,
            r.hwnd == self.hwnd,
            r.flags == self.flags | style::MB_SERVICE_NOTIFICATION,
    {
        let flags = self.flags | style::MB_SERVICE_NOTIFICATION;
        MessageBox { flags, ..self }
    }

    /// Adds a Help button to the message box.
    /// When the user clicks the Help button or presses F1,
    /// the system sends a help message to the owner.
    pub fn with_help(self) -> (r: Self)
        ensures
            r.icon == self.icon,
            r.text == self.text,
            r.title == self.title,
            r.hwnd == self.hwnd,
            r.flags == self.flags | style::MB_HELP,
    {
        let flags = self.flags | style::MB_HELP;
        MessageBox { flags, ..self }
    }

    /// Creates a new message box where its icon is set to [Exclamation](Icon::Exclamation).
    pub fn exclamation(text: &'a str) -> (r: Self)
        ensures
            r.icon == Icon::Exclamation,
            r.text == text,
            r.title is None,
            r.hwnd == 0,
            r.flags == 0,
    {
        Self::new(text).icon(Icon::Exclamation)
    }

    /// Creates a new message box where its icon is set to [Warning](Icon::Warning).
    pub fn warning(text: &'a str) -> (r: Self)
        ensures
            r.icon == Icon::Warning,
            r.text == text,
            r.title is None,
            r.hwnd == 0,
            r.flags == 0,
    {
        Self::new(text).icon(Icon::Warning)
    }

    /// Creates a new message box where its icon is set to [Information](Icon::Information).
    pub fn information(text: &'a str) -> (r: Self)
        ensures
            r.icon == Icon::Information,
            r.text == text,
            r.title is None,
            r.hwnd == 0,
            r.flags == 0,
    {
        Self::new(text).icon(Icon::Information)
    }

    /// Creates a new message box where its icon is set to [Asterisk](Icon::Asterisk).
    pub fn asterisk(text: &'a str) -> (r: Self)
        ensures
            r.icon == Icon::Asterisk,
            r.text == text,
            r.title is None,
            r.hwnd == 0,
            r.flags == 0,
    {
        Self::new(text).icon(Icon::Asterisk)
    }

    /// Creates a new message box where its icon is set to [Question](Icon::Question).
    pub fn question(text: &'a str) -> (r: Self)
        ensures
            r.icon == Icon::Question,
            r.text == text,
            r.title is None,
            r.hwnd == 0,
            r.flags == 0,
    {
        Self::new(text).icon(Icon::Question)
    }

    /// Creates a new message box where its icon is set to [Stop](Icon::Stop).
    pub fn stop(text: &'a str) -> (r: Self)
        ensures
            r.icon == Icon::Stop,
            r.text == text,
            r.title is None,
            r.hwnd == 0,
            r.flags == 0,
    {
        Self::new(text).icon(Icon::Stop)
    }

    /// Creates a new message box where its icon is set to [Error](Icon::Error).
    pub fn error(text: &'a str) -> (r: Self)
        ensures
            r.icon == Icon::Error,
            r.text == text,
            r.title is None,
            r.hwnd == 0,
            r.flags == 0,
    {
        Self::new(text).icon(Icon::Error)
    }

    /// Creates a new message box where its icon is set to [Hand](Icon::Hand).
    pub fn hand(text: &'a str) -> (r: Self)
        ensures
            r.icon == Icon::Hand,
            r.text == text,
            r.title is None,
            r.hwnd == 0,
            r.flags == 0,
    {
        Self::new(text).icon(Icon::Hand)
    }
}

impl<'a, T: Options> MessageBox<'a, T> {
    /// The fully composed style word of this message box: the button-set
    /// bits, the icon bits, and every accumulated flag, combined by
    /// bitwise or.
    pub open spec fn spec_style(self) -> u32 {
        T::spec_flags() | self.icon.spec_style() | self.flags
    }

    /// The fully composed style word of this message box.
    pub fn style(&self) -> (r: u32)
        ensures
            r == self.spec_style(),
    {
        T::flags() | self.icon.style() | self.flags
    }

    /// Encodes text and title and composes the final style word, yielding
    /// everything the native dialog call takes. The native call itself is
    /// platform I/O and stays outside the library; its numeric return is
    /// mapped back through [`interpret_result`].
    pub fn prepare(self) -> (r: Invocation)
        ensures
            r.hwnd == self.hwnd,
            r.style == self.spec_style(),
            r.text@ == wide_null(self.text@),
            wide_title_matches(self.title, r.title),
    {
        let style = self.style();
        let text = encode_wide(self.text);
        let title = match self.title {
            Option::Some(t) => Option::Some(encode_wide(t)),
            Option::None => Option::None,
        };
        Invocation { hwnd: self.hwnd, text, title, style }
    }
}

/// Maps the numeric return of the native dialog call to the outcome it
/// stands for: a zero return signals that the dialog could not be shown and
/// carries the platform's diagnostic code; any non-zero return selects a
/// button outcome through the active button set's total mapping.
pub fn interpret_result<T: Options>(return_code: i32, last_error: Error) -> (r: Result<T, Error>)
    ensures
        return_code == 0 ==> r == Result::<T, Error>::Err(last_error),
        return_code != 0 ==> r == Result::<T, Error>::Ok(T::spec_from_result(return_code)),
{
    if return_code == 0 {
        Result::Err(last_error)
    } else {
        Result::Ok(T::from_result(return_code))
    }
}

/// Creates a new message box with a specified `text` to be displayed.
pub fn new<'a, T>(text: &'a str) -> (r: MessageBox<'a, T>)
    ensures
        r.icon == Icon::Information,
        r.text == text,
        r.title is None,
        r.hwnd == 0,
        r.flags == 0,
{
    MessageBox::<T>::new(text)
}

/// Creates a new message box where its icon is set to [Exclamation](Icon::Exclamation).
pub fn exclamation<'a, T>(text: &'a str) -> (r: MessageBox<'a, T>)
    ensures
        r.icon == Icon::Exclamation,
        r.text == text,
        r.title is None,
        r.hwnd == 0,
        r.flags == 0,
{
    MessageBox::<T>::exclamation(text)
}

/// Creates a new message box where its icon is set to [Warning](Icon::Warning).
pub fn warning<'a, T>(text: &'a str) -> (r: MessageBox<'a, T>)
    ensures
        r.icon == Icon::Warning,
        r.text == text,
        r.title is None,
        r.hwnd == 0,
        r.flags == 0,
{
    MessageBox::<T>::warning(text)
}

/// Creates a new message box where its icon is set to [Information](Icon::Information).
pub fn information<'a, T>(text: &'a str) -> (r: MessageBox<'a, T>)
    ensures
        r.icon == Icon::Information,
        r.text == text,
        r.title is None,
        r.hwnd == 0,
        r.flags == 0,
{
    MessageBox::<T>::information(text)
}

/// Creates a new message box where its icon is set to [Asterisk](Icon::Asterisk).
pub fn asterisk<'a, T>(text: &'a str) -> (r: MessageBox<'a, T>)
    ensures
        r.icon == Icon::Asterisk,
        r.text == text,
        r.title is None,
        r.hwnd == 0,
        r.flags == 0,
{
    MessageBox::<T>::asterisk(text)
}

/// Creates a new message box where its icon is set to [Question](Icon::Question).
pub fn question<'a, T>(text: &'a str) -> (r: MessageBox<'a, T>)
    ensures
        r.icon == Icon::Question,
        r.text == text,
        r.title is None,
        r.hwnd == 0,
        r.flags == 0,
{
    MessageBox::<T>::question(text)
}

/// Creates a new message box where its icon is set to [Stop](Icon::Stop).
pub fn stop<'a, T>(text: &'a str) -> (r: MessageBox<'a, T>)
    ensures
        r.icon == Icon::Stop,
        r.text == text,
        r.title is None,
        r.hwnd == 0,
        r.flags == 0,
{
    MessageBox::<T>::stop(text)
}

/// Creates a new message box where its icon is set to [Error](Icon::Error).
pub fn error<'a, T>(text: &'a str) -> (r: MessageBox<'a, T>)
    ensures
        r.icon == Icon::Error,
        r.text == text,
        r.title is None,
        r.hwnd == 0,
        r.flags == 0,
{
    MessageBox::<T>::error(text)
}

/// Creates a new message box where its icon is set to [Hand](Icon::Hand).
pub fn hand<'a, T>(text: &'a str) -> (r: MessageBox<'a, T>)
    ensures
        r.icon == Icon::Hand,
        r.text == text,
        r.title is None,
        r.hwnd == 0,
        r.flags == 0,
{
    MessageBox::<T>::hand(text)
}

} // verus!

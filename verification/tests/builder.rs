use win_msgbox::style;
use win_msgbox::{
    interpret_result, CancelTryAgainContinue, DefaultButton, Icon, MessageBox, Modal, Okay,
};

#[test]
fn icon_styles() {
    assert_eq!(Icon::Exclamation.style(), 0x30);
    assert_eq!(Icon::Warning.style(), 0x30);
    assert_eq!(Icon::Information.style(), 0x40);
    assert_eq!(Icon::Asterisk.style(), 0x40);
    assert_eq!(Icon::Question.style(), 0x20);
    assert_eq!(Icon::Stop.style(), 0x10);
    assert_eq!(Icon::Error.style(), 0x10);
    assert_eq!(Icon::Hand.style(), 0x10);
}

#[test]
fn modal_and_default_button_styles() {
    assert_eq!(Modal::Application.style(), 0x0);
    assert_eq!(Modal::System.style(), 0x1000);
    assert_eq!(Modal::Task.style(), 0x2000);
    assert_eq!(Modal::default(), Modal::Application);
    assert_eq!(DefaultButton::DefaultButton1.style(), 0x0);
    assert_eq!(DefaultButton::DefaultButton2.style(), 0x100);
    assert_eq!(DefaultButton::DefaultButton3.style(), 0x200);
    assert_eq!(DefaultButton::DefaultButton4.style(), 0x300);
    assert_eq!(DefaultButton::default(), DefaultButton::DefaultButton1);
}

#[test]
fn default_state_composes_to_information_only() {
    let m = MessageBox::<Okay>::new("hello");
    assert_eq!(m.icon, Icon::Information);
    assert_eq!(m.title, None);
    assert_eq!(m.hwnd, 0);
    assert_eq!(m.flags, 0);
    // the composed style is the Information icon plus the button-set bits only
    assert_eq!(m.style(), style::MB_OK | style::MB_ICONINFORMATION);
    assert_eq!(m.style(), 0x40);
}

#[test]
fn minimal_okay_scenario() {
    let inv = win_msgbox::new::<Okay>("Hello World").prepare();
    assert_eq!(inv.style, style::MB_OK | style::MB_ICONINFORMATION);
    assert_eq!(inv.hwnd, 0);
    assert_eq!(inv.title, None);
    // any simulated non-zero return yields the single Okay case
    assert_eq!(interpret_result::<Okay>(1, 0), Ok(Okay));
    assert_eq!(interpret_result::<Okay>(2, 0), Ok(Okay));
    assert_eq!(interpret_result::<Okay>(-7, 0), Ok(Okay));
    assert_eq!(interpret_result::<Okay>(i32::MAX, 0), Ok(Okay));
}

#[test]
fn error_cancel_try_continue_scenario() {
    let m = win_msgbox::error::<CancelTryAgainContinue>("x").title("y");
    assert_eq!(
        m.style(),
        style::MB_ICONERROR | style::MB_CANCELTRYCONTINUE
    );
    // a simulated zero return carries the injected diagnostic code
    assert_eq!(
        interpret_result::<CancelTryAgainContinue>(0, 42),
        Err(42)
    );
    // a simulated TryAgain code returns TryAgain
    assert_eq!(
        interpret_result::<CancelTryAgainContinue>(style::IDTRYAGAIN, 0),
        Ok(CancelTryAgainContinue::TryAgain)
    );
    // an unrecognized code returns the documented fallback Cancel
    assert_eq!(
        interpret_result::<CancelTryAgainContinue>(999, 0),
        Ok(CancelTryAgainContinue::Cancel)
    );
}

#[test]
fn auxiliary_bits_set_exactly_and_commute() {
    let base = MessageBox::<Okay>::new("x").style();
    let a = MessageBox::<Okay>::new("x").right().topmost().with_help();
    let b = MessageBox::<Okay>::new("x").with_help().topmost().right();
    let c = MessageBox::<Okay>::new("x").topmost().right().with_help();
    let expected = base | style::MB_RIGHT | style::MB_TOPMOST | style::MB_HELP;
    assert_eq!(a.style(), expected);
    assert_eq!(b.style(), expected);
    assert_eq!(c.style(), expected);
    // exactly those three auxiliary bits are set beyond the base
    assert_eq!(a.style() & !base, style::MB_RIGHT | style::MB_TOPMOST | style::MB_HELP);
}

#[test]
fn builder_methods_accumulate_their_flags() {
    let m = MessageBox::<Okay>::new("x")
        .modal(Modal::System)
        .default_button(DefaultButton::DefaultButton2)
        .set_foreground()
        .rtl_reading()
        .default_desktop_only()
        .service_notification();
    assert_eq!(
        m.flags,
        style::MB_SYSTEMMODAL
            | style::MB_DEFBUTTON2
            | style::MB_SETFOREGROUND
            | style::MB_RTLREADING
            | style::MB_DEFAULT_DESKTOP_ONLY
            | style::MB_SERVICE_NOTIFICATION
    );
}

#[test]
fn builder_fields_carry_over() {
    let m = MessageBox::<Okay>::new("body").title("head").hwnd(7).icon(Icon::Question);
    assert_eq!(m.text, "body");
    assert_eq!(m.title, Some("head"));
    assert_eq!(m.hwnd, 7);
    assert_eq!(m.icon, Icon::Question);
}

#[test]
fn named_constructors_set_their_icon() {
    assert_eq!(win_msgbox::exclamation::<Okay>("m").icon, Icon::Exclamation);
    assert_eq!(win_msgbox::warning::<Okay>("m").icon, Icon::Warning);
    assert_eq!(win_msgbox::information::<Okay>("m").icon, Icon::Information);
    assert_eq!(win_msgbox::asterisk::<Okay>("m").icon, Icon::Asterisk);
    assert_eq!(win_msgbox::question::<Okay>("m").icon, Icon::Question);
    assert_eq!(win_msgbox::stop::<Okay>("m").icon, Icon::Stop);
    assert_eq!(win_msgbox::error::<Okay>("m").icon, Icon::Error);
    assert_eq!(win_msgbox::hand::<Okay>("m").icon, Icon::Hand);
    assert_eq!(win_msgbox::new::<Okay>("m").icon, Icon::Information);
    assert_eq!(MessageBox::<Okay>::stop("m").icon, Icon::Stop);
}

#[test]
fn prepare_encodes_text_and_title() {
    let inv = MessageBox::<Okay>::new("Hi").title("Yo").prepare();
    assert_eq!(inv.text, vec![0x48, 0x69, 0]);
    assert_eq!(inv.title, Some(vec![0x59, 0x6F, 0]));
}

#[test]
fn prepare_encodes_beyond_ascii() {
    // a Latin-1 character, and a supplementary-plane character that needs a
    // surrogate pair
    let inv = MessageBox::<Okay>::new("é𝄞").prepare();
    assert_eq!(inv.text, vec![0x00E9, 0xD834, 0xDD1E, 0]);
    let empty = MessageBox::<Okay>::new("").prepare();
    assert_eq!(empty.text, vec![0]);
}

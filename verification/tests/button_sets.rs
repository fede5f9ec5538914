use win_msgbox::style;
use win_msgbox::{
    AbortRetryIgnore, CancelTryAgainContinue, Okay, OkayCancel, Options, RetryCancel, YesNo,
    YesNoCancel,
};
use windows_sys::Win32::UI::WindowsAndMessaging as wm;

#[test]
fn okay_flags_and_mapping() {
    assert_eq!(Okay::flags(), 0x0);
    assert_eq!(Okay::from_result(1), Okay);
    assert_eq!(Okay::from_result(999), Okay);
    assert_eq!(Okay::from_result(i32::MIN), Okay);
    assert_eq!(Okay::from_result(i32::MAX), Okay);
}

#[test]
fn okay_cancel_flags_and_mapping() {
    assert_eq!(OkayCancel::flags(), 0x1);
    assert_eq!(OkayCancel::from_result(1), OkayCancel::Okay);
    assert_eq!(OkayCancel::from_result(2), OkayCancel::Cancel);
    // unrecognized codes fall back to Cancel
    assert_eq!(OkayCancel::from_result(0), OkayCancel::Cancel);
    assert_eq!(OkayCancel::from_result(999), OkayCancel::Cancel);
    assert_eq!(OkayCancel::from_result(i32::MIN), OkayCancel::Cancel);
}

#[test]
fn abort_retry_ignore_flags_and_mapping() {
    assert_eq!(AbortRetryIgnore::flags(), 0x2);
    assert_eq!(AbortRetryIgnore::from_result(3), AbortRetryIgnore::Abort);
    assert_eq!(AbortRetryIgnore::from_result(4), AbortRetryIgnore::Retry);
    assert_eq!(AbortRetryIgnore::from_result(5), AbortRetryIgnore::Ignore);
    // unrecognized codes fall back to Ignore
    assert_eq!(AbortRetryIgnore::from_result(6), AbortRetryIgnore::Ignore);
    assert_eq!(AbortRetryIgnore::from_result(-1), AbortRetryIgnore::Ignore);
}

#[test]
fn cancel_try_again_continue_flags_and_mapping() {
    assert_eq!(CancelTryAgainContinue::flags(), 0x6);
    assert_eq!(
        CancelTryAgainContinue::from_result(10),
        CancelTryAgainContinue::TryAgain
    );
    assert_eq!(
        CancelTryAgainContinue::from_result(11),
        CancelTryAgainContinue::Continue
    );
    assert_eq!(
        CancelTryAgainContinue::from_result(2),
        CancelTryAgainContinue::Cancel
    );
    // unrecognized codes fall back to Cancel, never to TryAgain or Continue
    assert_eq!(
        CancelTryAgainContinue::from_result(999),
        CancelTryAgainContinue::Cancel
    );
    assert_eq!(
        CancelTryAgainContinue::from_result(i32::MAX),
        CancelTryAgainContinue::Cancel
    );
}

#[test]
fn retry_cancel_flags_and_mapping() {
    assert_eq!(RetryCancel::flags(), 0x5);
    assert_eq!(RetryCancel::from_result(4), RetryCancel::Retry);
    assert_eq!(RetryCancel::from_result(2), RetryCancel::Cancel);
    // unrecognized codes fall back to Cancel
    assert_eq!(RetryCancel::from_result(77), RetryCancel::Cancel);
}

#[test]
fn yes_no_flags_and_mapping() {
    assert_eq!(YesNo::flags(), 0x4);
    assert_eq!(YesNo::from_result(6), YesNo::Yes);
    assert_eq!(YesNo::from_result(7), YesNo::No);
    // unrecognized codes fall back to No
    assert_eq!(YesNo::from_result(0), YesNo::No);
    assert_eq!(YesNo::from_result(-6), YesNo::No);
}

#[test]
fn yes_no_cancel_flags_and_mapping() {
    assert_eq!(YesNoCancel::flags(), 0x3);
    assert_eq!(YesNoCancel::from_result(6), YesNoCancel::Yes);
    assert_eq!(YesNoCancel::from_result(7), YesNoCancel::No);
    assert_eq!(YesNoCancel::from_result(2), YesNoCancel::Cancel);
    // unrecognized codes fall back to Cancel
    assert_eq!(YesNoCancel::from_result(1000), YesNoCancel::Cancel);
    assert_eq!(YesNoCancel::from_result(i32::MIN), YesNoCancel::Cancel);
}

#[test]
fn platform_constants_match_the_bindings() {
    assert_eq!(style::MB_OK, wm::MB_OK);
    assert_eq!(style::MB_OKCANCEL, wm::MB_OKCANCEL);
    assert_eq!(style::MB_ABORTRETRYIGNORE, wm::MB_ABORTRETRYIGNORE);
    assert_eq!(style::MB_YESNOCANCEL, wm::MB_YESNOCANCEL);
    assert_eq!(style::MB_YESNO, wm::MB_YESNO);
    assert_eq!(style::MB_RETRYCANCEL, wm::MB_RETRYCANCEL);
    assert_eq!(style::MB_CANCELTRYCONTINUE, wm::MB_CANCELTRYCONTINUE);
    assert_eq!(style::MB_ICONHAND, wm::MB_ICONHAND);
    assert_eq!(style::MB_ICONQUESTION, wm::MB_ICONQUESTION);
    assert_eq!(style::MB_ICONEXCLAMATION, wm::MB_ICONEXCLAMATION);
    assert_eq!(style::MB_ICONASTERISK, wm::MB_ICONASTERISK);
    assert_eq!(style::MB_ICONWARNING, wm::MB_ICONWARNING);
    assert_eq!(style::MB_ICONERROR, wm::MB_ICONERROR);
    assert_eq!(style::MB_ICONINFORMATION, wm::MB_ICONINFORMATION);
    assert_eq!(style::MB_ICONSTOP, wm::MB_ICONSTOP);
    assert_eq!(style::MB_DEFBUTTON1, wm::MB_DEFBUTTON1);
    assert_eq!(style::MB_DEFBUTTON2, wm::MB_DEFBUTTON2);
    assert_eq!(style::MB_DEFBUTTON3, wm::MB_DEFBUTTON3);
    assert_eq!(style::MB_DEFBUTTON4, wm::MB_DEFBUTTON4);
    assert_eq!(style::MB_APPLMODAL, wm::MB_APPLMODAL);
    assert_eq!(style::MB_SYSTEMMODAL, wm::MB_SYSTEMMODAL);
    assert_eq!(style::MB_TASKMODAL, wm::MB_TASKMODAL);
    assert_eq!(style::MB_HELP, wm::MB_HELP);
    assert_eq!(style::MB_SETFOREGROUND, wm::MB_SETFOREGROUND);
    assert_eq!(style::MB_DEFAULT_DESKTOP_ONLY, wm::MB_DEFAULT_DESKTOP_ONLY);
    assert_eq!(style::MB_TOPMOST, wm::MB_TOPMOST);
    assert_eq!(style::MB_RIGHT, wm::MB_RIGHT);
    assert_eq!(style::MB_RTLREADING, wm::MB_RTLREADING);
    assert_eq!(style::MB_SERVICE_NOTIFICATION, wm::MB_SERVICE_NOTIFICATION);
    assert_eq!(style::IDOK, wm::IDOK);
    assert_eq!(style::IDCANCEL, wm::IDCANCEL);
    assert_eq!(style::IDABORT, wm::IDABORT);
    assert_eq!(style::IDRETRY, wm::IDRETRY);
    assert_eq!(style::IDIGNORE, wm::IDIGNORE);
    assert_eq!(style::IDYES, wm::IDYES);
    assert_eq!(style::IDNO, wm::IDNO);
    assert_eq!(style::IDTRYAGAIN, wm::IDTRYAGAIN);
    assert_eq!(style::IDCONTINUE, wm::IDCONTINUE);
}

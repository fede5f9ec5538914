//! Library-wide laws: totality of the outcome mappings, bitwise
//! disjointness of the style-flag groups, and order-independence of the
//! builder's flag accumulation.

use vstd::prelude::*;

use crate::abort_retry_ignore::AbortRetryIgnore;
use crate::cancel_try_again_continue::CancelTryAgainContinue;
use crate::is_button_set_flags;
use crate::okay::Okay;
use crate::okay_cancel::OkayCancel;
use crate::retry_cancel::RetryCancel;
use crate::style;
use crate::yes_no::YesNo;
use crate::yes_no_cancel::YesNoCancel;
use crate::DefaultButton;
use crate::Icon;
use crate::Modal;
use crate::Options;

verus! {

/// Whether `a` is one of the auxiliary style bits the builder can accumulate.
pub open spec fn is_aux_flag(a: u32) -> bool {
    ||| a == style::MB_HELP
    ||| a == style::MB_SETFOREGROUND
    ||| a == style::MB_DEFAULT_DESKTOP_ONLY
    ||| a == style::MB_TOPMOST
    ||| a == style::MB_RIGHT
    ||| a == style::MB_RTLREADING
    ||| a == style::MB_SERVICE_NOTIFICATION
}

proof fn lemma_group_values_disjoint(b: u32, i: u32, m: u32, d: u32, a: u32)
    by (bit_vector)
    requires
        b == 0x0 || b == 0x1 || b == 0x2 || b == 0x3 || b == 0x4 || b == 0x5 || b == 0x6,
        i == 0x10 || i == 0x20 || i == 0x30 || i == 0x40,
        m == 0x0 || m == 0x1000 || m == 0x2000,
        d == 0x0 || d == 0x100 || d == 0x200 || d == 0x300,
        a == 0x4000 || a == 0x10000 || a == 0x20000 || a == 0x40000 || a == 0x80000
            || a == 0x100000 || a == 0x200000,
    ensures
        b & i == 0,
        b & m == 0,
        b & d == 0,
        b & a == 0,
        i & m == 0,
        i & d == 0,
        i & a == 0,
        m & d == 0,
        m & a == 0,
        d & a == 0,
{
}

/// Law: no two distinct semantic options occupy overlapping bits. The
/// button-set bits of any option type, the bits of any icon, any modality,
/// any default button, and any auxiliary flag are pairwise disjoint, so
/// composing them by bitwise or loses nothing.
pub proof fn lemma_no_flag_collision<T: Options>(
    icon: Icon,
    modal: Modal,
    btn: DefaultButton,
    aux: u32,
)
    requires
        is_aux_flag(aux),
    ensures
        T::spec_flags() & icon.spec_style() == 0,
        T::spec_flags() & modal.spec_style() == 0,
        T::spec_flags() & btn.spec_style() == 0,
        T::spec_flags() & aux == 0,
        icon.spec_style() & modal.spec_style() == 0,
        icon.spec_style() & btn.spec_style() == 0,
        icon.spec_style() & aux == 0,
        modal.spec_style() & btn.spec_style() == 0,
        modal.spec_style() & aux == 0,
        btn.spec_style() & aux == 0,
{
    T::lemma_flags_valid();
    assert(is_button_set_flags(T::spec_flags()));
    lemma_group_values_disjoint(
        T::spec_flags(),
        icon.spec_style(),
        modal.spec_style(),
        btn.spec_style(),
        aux,
    );
}

/// Law: every button set's outcome mapping is total: each 32-bit result
/// code, recognized or not, maps to one of the variant's defined cases.
pub proof fn lemma_from_result_total()
    ensures
        forall|c: i32| (#[trigger] Okay::spec_from_result(c)) == Okay,
        forall|c: i32|
            (#[trigger] OkayCancel::spec_from_result(c)) is Okay || OkayCancel::spec_from_result(
                c,
            ) is Cancel,
        forall|c: i32|
            (#[trigger] AbortRetryIgnore::spec_from_result(c)) is Abort
                || AbortRetryIgnore::spec_from_result(c) is Retry
                || AbortRetryIgnore::spec_from_result(c) is Ignore,
        forall|c: i32|
            (#[trigger] CancelTryAgainContinue::spec_from_result(c)) is Cancel
                || CancelTryAgainContinue::spec_from_result(c) is TryAgain
                || CancelTryAgainContinue::spec_from_result(c) is Continue,
        forall|c: i32|
            (#[trigger] RetryCancel::spec_from_result(c)) is Retry
                || RetryCancel::spec_from_result(c) is Cancel,
        forall|c: i32|
            (#[trigger] YesNo::spec_from_result(c)) is Yes || YesNo::spec_from_result(c) is No,
        forall|c: i32|
            (#[trigger] YesNoCancel::spec_from_result(c)) is Yes || YesNoCancel::spec_from_result(
                c,
            ) is No || YesNoCancel::spec_from_result(c) is Cancel,
{
}

/// Law: each explicitly documented result code maps to its documented case
/// exactly, never to the variant's fallback case.
pub proof fn lemma_documented_codes_map_exactly()
    ensures
        OkayCancel::spec_from_result(style::IDOK) is Okay,
        OkayCancel::spec_from_result(style::IDCANCEL) is Cancel,
        AbortRetryIgnore::spec_from_result(style::IDABORT) is Abort,
        AbortRetryIgnore::spec_from_result(style::IDRETRY) is Retry,
        AbortRetryIgnore::spec_from_result(style::IDIGNORE) is Ignore,
        CancelTryAgainContinue::spec_from_result(style::IDTRYAGAIN) is TryAgain,
        CancelTryAgainContinue::spec_from_result(style::IDCONTINUE) is Continue,
        CancelTryAgainContinue::spec_from_result(style::IDCANCEL) is Cancel,
        RetryCancel::spec_from_result(style::IDRETRY) is Retry,
        RetryCancel::spec_from_result(style::IDCANCEL) is Cancel,
        YesNo::spec_from_result(style::IDYES) is Yes,
        YesNo::spec_from_result(style::IDNO) is No,
        YesNoCancel::spec_from_result(style::IDYES) is Yes,
        YesNoCancel::spec_from_result(style::IDNO) is No,
        YesNoCancel::spec_from_result(style::IDCANCEL) is Cancel,
{
}

/// Law: flag accumulation is insensitive to call order: or-ing two style
/// bits into an accumulator yields the same word in either order, and
/// together they set exactly the union of the two bit patterns.
pub proof fn lemma_accumulation_commutes(flags: u32, a: u32, b: u32)
    by (bit_vector)
    ensures
        flags | a | b == flags | b | a,
        flags | a | b == flags | (a | b),
{
}

} // verus!

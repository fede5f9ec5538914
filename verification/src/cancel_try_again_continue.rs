use vstd::prelude::*;

use crate::style;
use crate::Options;

verus! {

/// The message box contains three push buttons: **Cancel**, **Try Again**, **Continue**.
/// Use this message box type instead of [AbortRetryIgnore](crate::AbortRetryIgnore).
#[derive(Debug, Eq, PartialEq, Clone, Copy, Hash)]
pub enum CancelTryAgainContinue {
    /// The **Cancel** button was selected.
    Cancel,
    /// The **Try Again** button was selected.
    TryAgain,
    /// The **Continue** button was selected.
    Continue,
}

impl Options for CancelTryAgainContinue {
    open spec fn spec_flags() -> u32 {
        style::MB_CANCELTRYCONTINUE
    }

    open spec fn spec_from_result(value: i32) -> Self {
        if value == style::IDTRYAGAIN {
            CancelTryAgainContinue::TryAgain
        } else if value == style::IDCONTINUE {
            CancelTryAgainContinue::Continue
        } else {
            CancelTryAgainContinue::Cancel
        }
    }

    fn flags() -> (r: u32) {
        style::MB_CANCELTRYCONTINUE
    }

    fn from_result(value: i32) -> (r: Self) {
        if value == style::IDTRYAGAIN {
            CancelTryAgainContinue::TryAgain
        } else if value == style::IDCONTINUE {
            CancelTryAgainContinue::Continue
        } else {
            CancelTryAgainContinue::Cancel
        }
    }

    proof fn lemma_flags_valid() {
    }
}

} // verus!

use vstd::prelude::*;

use crate::style;
use crate::Options;

verus! {

/// The message box contains three push buttons: **Abort**, **Retry**, and **Ignore**.
#[derive(Debug, Eq, PartialEq, Clone, Copy, Hash)]
pub enum AbortRetryIgnore {
    /// The **Abort** button was selected.
    Abort,
    /// The **Retry** button was selected.
    Retry,
    /// The **Ignore** button was selected.
    Ignore,
}

impl Options for AbortRetryIgnore {
    open spec fn spec_flags() -> u32 {
        style::MB_ABORTRETRYIGNORE
    }

    open spec fn spec_from_result(value: i32) -> Self {
        if value == style::IDABORT {
            AbortRetryIgnore::Abort
        } else if value == style::IDRETRY {
            AbortRetryIgnore::Retry
        } else {
            AbortRetryIgnore::Ignore
        }
    }

    fn flags() -> (r: u32) {
        style::MB_ABORTRETRYIGNORE
    }

    fn from_result(value: i32) -> (r: Self) {
        if value == style::IDABORT {
            AbortRetryIgnore::Abort
        } else if value == style::IDRETRY {
            AbortRetryIgnore::Retry
        } else {
            AbortRetryIgnore::Ignore
        }
    }

    proof fn lemma_flags_valid() {
    }
}

} // verus!

use vstd::prelude::*;

use crate::style;
use crate::Options;

verus! {

/// The message box contains two push buttons: **Retry** and **Cancel**.
#[derive(Debug, Eq, PartialEq, Clone, Copy, Hash)]
pub enum RetryCancel {
    /// The **Retry** button was selected.
    Retry,
    /// The **Cancel** button was selected.
    Cancel,
}

impl Options for RetryCancel {
    open spec fn spec_flags() -> u32 {
        style::MB_RETRYCANCEL
    }

    open spec fn spec_from_result(value: i32) -> Self {
        if value == style::IDRETRY {
            RetryCancel::Retry
        } else {
            RetryCancel::Cancel
        }
    }

    fn flags() -> (r: u32) {
        style::MB_RETRYCANCEL
    }

    fn from_result(value: i32) -> (r: Self) {
        if value == style::IDRETRY {
            RetryCancel::Retry
        } else {
            RetryCancel::Cancel
        }
    }

    proof fn lemma_flags_valid() {
    }
}

} // verus!

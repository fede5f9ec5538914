use vstd::prelude::*;

use crate::style;
use crate::Options;

verus! {

/// The message box contains two push buttons: **OK** and **Cancel**.
#[derive(Debug, Eq, PartialEq, Clone, Copy, Hash)]
pub enum OkayCancel {
    /// The **OK** button was selected.
    Okay,
    /// The **Cancel** button was selected.
    Cancel,
}

impl Options for OkayCancel {
    open spec fn spec_flags() -> u32 {
        style::MB_OKCANCEL
    }

    open spec fn spec_from_result(value: i32) -> Self {
        if value == style::IDOK {
            OkayCancel::Okay
        } else {
            OkayCancel::Cancel
        }
    }

    fn flags() -> (r: u32) {
        style::MB_OKCANCEL
    }

    fn from_result(value: i32) -> (r: Self) {
        if value == style::IDOK {
            OkayCancel::Okay
        } else {
            OkayCancel::Cancel
        }
    }

    proof fn lemma_flags_valid() {
    }
}

} // verus!

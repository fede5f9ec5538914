use vstd::prelude::*;

use crate::style;
use crate::Options;

verus! {

/// The message box contains three push buttons: **Yes**, **No**, and **Cancel**.
#[derive(Debug, Eq, PartialEq, Clone, Copy, Hash)]
pub enum YesNoCancel {
    /// The **Yes** button was selected.
    Yes,
    /// The **No** button was selected.
    No,
    /// The **Cancel** button was selected.
    Cancel,
}

impl Options for YesNoCancel {
    open spec fn spec_flags() -> u32 {
        style::MB_YESNOCANCEL
    }

    open spec fn spec_from_result(value: i32) -> Self {
        if value == style::IDYES {
            YesNoCancel::Yes
        } else if value == style::IDNO {
            YesNoCancel::No
        } else {
            YesNoCancel::Cancel
        }
    }

    fn flags() -> (r: u32) {
        style::MB_YESNOCANCEL
    }

    fn from_result(value: i32) -> (r: Self) {
        if value == style::IDYES {
            YesNoCancel::Yes
        } else if value == style::IDNO {
            YesNoCancel::No
        } else {
            YesNoCancel::Cancel
        }
    }

    proof fn lemma_flags_valid() {
    }
}

} // verus!

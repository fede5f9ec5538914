use vstd::prelude::*;

use crate::style;
use crate::Options;

verus! {

/// The message box contains two push buttons: **Yes** and **No**.
#[derive(Debug, Eq, PartialEq, Clone, Copy, Hash)]
pub enum YesNo {
    /// The **Yes** button was selected.
    Yes,
    /// The **No** button was selected.
    No,
}

impl Options for YesNo {
    open spec fn spec_flags() -> u32 {
        style::MB_YESNO
    }

    open spec fn spec_from_result(value: i32) -> Self {
        if value == style::IDYES {
            YesNo::Yes
        } else {
            YesNo::No
        }
    }

    fn flags() -> (r: u32) {
        style::MB_YESNO
    }

    fn from_result(value: i32) -> (r: Self) {
        if value == style::IDYES {
            YesNo::Yes
        } else {
            YesNo::No
        }
    }

    proof fn lemma_flags_valid() {
    }
}

} // verus!

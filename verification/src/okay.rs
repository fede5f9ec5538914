use vstd::prelude::*;

use crate::style;
use crate::Options;

verus! {

/// The message box contains one push button: `OK`.
#[derive(Debug, Eq, PartialEq, Clone, Copy, Hash)]
pub struct Okay;

impl Options for Okay {
    open spec fn spec_flags() -> u32 {
        style::MB_OK
    }

    open spec fn spec_from_result(value: i32) -> Self {
        Okay
    }

    fn flags() -> (r: u32) {
        style::MB_OK
    }

    fn from_result(value: i32) -> (r: Self) {
        Okay
    }

    proof fn lemma_flags_valid() {
    }
}

} // verus!

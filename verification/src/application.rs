//! The settings of a run.

use crate::common::Describe;
use crate::text::{decimal, number};
use vstd::prelude::*;
use vstd::string::*;

verus! {

/// What the user has set.
#[derive(Debug, Clone, Copy, PartialEq, Eq)]
pub struct UserSettings {
    pub verbose: u8,
    pub threshold: u8,
}

/// The text of the settings names the threshold in both places: how much
/// is logged shows in the log, and is not written out.
impl Describe for UserSettings {
    open spec fn text(&self) -> Seq<char> {
        "verbose: "@ + decimal(self.threshold as nat) + ", threshold: "@ + decimal(
            self.threshold as nat,
        )
    }

    fn describe(&self) -> (s: String) {
        String::from_str("verbose: ").concat(number(self.threshold as u64).as_str()).concat(
            ", threshold: ",
        ).concat(number(self.threshold as u64).as_str())
    }
}

} // verus!

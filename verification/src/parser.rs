//! Reading the command line's values.

use crate::text::{decimal, number, parse_failure, parse_u8, unsigned};
use vstd::prelude::*;
use vstd::string::*;

verus! {

/// The lowest charge threshold that can be asked for.
pub const THRESHOLD_MIN: u8 = 0;

/// The highest charge threshold that can be asked for.
pub const THRESHOLD_MAX: u8 = 100;

/// What tells the user that a number is no threshold.
pub open spec fn out_of_range() -> Seq<char> {
    "not in range "@ + decimal(THRESHOLD_MIN as nat) + "-"@ + decimal(THRESHOLD_MAX as nat)
}

/// Tells the user the range of a threshold.
pub fn range() -> (text: String)
    ensures
        text@ == out_of_range(),
{
    String::from_str("not in range ").concat(number(THRESHOLD_MIN as u64).as_str()).concat(
        "-",
    ).concat(number(THRESHOLD_MAX as u64).as_str())
}

/// Reads a charge threshold: a decimal number from 0 to 100.
///
/// A text that is no number of a byte is turned down with the parser's own
/// words, a number above 100 with the range.
pub fn threshold(s: &str) -> (r: Result<u8, String>)
    ensures
        match unsigned(s@) {
            Some(n) => if n <= THRESHOLD_MAX {
                r == Ok::<u8, String>(n as u8)
            } else if n <= u8::MAX {
                r matches Err(e) && e@ == out_of_range()
            } else {
                r matches Err(e) && e@ == parse_failure(s@)
            },
            None => r matches Err(e) && e@ == parse_failure(s@),
        },
{
    match parse_u8(s) {
        Ok(threshold) => {
            if THRESHOLD_MIN <= threshold && threshold <= THRESHOLD_MAX {
                Ok(threshold)
            } else {
                Err(range())
            }
        },
        Err(e) => Err(e),
    }
}

} // verus!

//! The requests that list remote devices.

use crate::platform::Request;
use vstd::prelude::*;
use vstd::string::*;

verus! {

/// The arguments that list every remote device that is known.
pub open spec fn all_args() -> Seq<Seq<char>> {
    seq!["--list-devices"@, "--id-name-only"@]
}

/// The arguments that list the remote devices that can be reached now.
pub open spec fn available_args() -> Seq<Seq<char>> {
    seq!["--list-available"@, "--id-name-only"@]
}

/// The request that lists every remote device that is known, a line for each.
pub fn all() -> (request: Request)
    ensures
        request@ == (crate::platform::RequestView::Execute { args: all_args() }),
{
    let mut args: Vec<String> = Vec::new();
    args.push(String::from_str("--list-devices"));
    args.push(String::from_str("--id-name-only"));
    assert(args.deep_view() =~= all_args());
    Request::Execute { args }
}

/// The request that lists the remote devices that can be reached now, a line for each.
pub fn available() -> (request: Request)
    ensures
        request@ == (crate::platform::RequestView::Execute { args: available_args() }),
{
    let mut args: Vec<String> = Vec::new();
    args.push(String::from_str("--list-available"));
    args.push(String::from_str("--id-name-only"));
    assert(args.deep_view() =~= available_args());
    Request::Execute { args }
}

} // verus!

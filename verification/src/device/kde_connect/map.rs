//! Remote devices by name.
//!
//! The devices stand in a vector in which no name occurs twice; a device that
//! comes with a name that is taken replaces the one that had it.

use super::{device_of, execute, stderr_warning, KDEConnect, KDEConnectView};
use crate::common::Describe;
use crate::error;
use crate::platform::Output;
use crate::text::{equal, lines, split_lines, utf8_lossy};
use vstd::prelude::*;
use vstd::string::*;

verus! {

/// Whether `i` is the first place in `devices` that holds a device named `name`.
pub open spec fn first_named(devices: Seq<KDEConnectView>, name: Seq<char>, i: int) -> bool {
    &&& 0 <= i < devices.len()
    &&& devices[i].name == name
    &&& forall|j: int| 0 <= j < i ==> (#[trigger] devices[j]).name != name
}

/// The first place in `devices` that holds a device named `name`.
pub open spec fn position(devices: Seq<KDEConnectView>, name: Seq<char>) -> Option<int> {
    if exists|i: int| first_named(devices, name, i) {
        Some(choose|i: int| first_named(devices, name, i))
    } else {
        None
    }
}

/// `devices` after `device` came: it has the place of the one that had its name, or the last place.
pub open spec fn put(devices: Seq<KDEConnectView>, device: KDEConnectView) -> Seq<KDEConnectView> {
    match position(devices, device.name) {
        Some(i) => devices.update(i, device),
        None => devices.push(device),
    }
}

/// The devices that the lines of a listing name, or what the first line that names none lacks.
pub open spec fn parsed(listing: Seq<Seq<char>>) -> Result<
    Seq<KDEConnectView>,
    error::KDEConnectDevice,
>
    decreases listing.len(),
{
    if listing.len() == 0 {
        Ok(Seq::empty())
    } else {
        match parsed(listing.drop_last()) {
            Err(lack) => Err(lack),
            Ok(devices) => match device_of(listing.last()) {
                Err(lack) => Err(lack),
                Ok(device) => Ok(put(devices, device)),
            },
        }
    }
}

/// Whether no name occurs twice in `devices`.
pub open spec fn distinct(devices: Seq<KDEConnectView>) -> bool {
    forall|i: int, j: int|
        0 <= i < j < devices.len() ==> (#[trigger] devices[i]).name != (#[trigger] devices[j]).name
}

/// The first place that holds a name is its position.
pub proof fn lemma_position_found(devices: Seq<KDEConnectView>, name: Seq<char>, i: int)
    requires
        first_named(devices, name, i),
    ensures
        position(devices, name) == Some(i),
{
    let k = choose|k: int| first_named(devices, name, k);
    assert(first_named(devices, name, k));
    if k < i {
        assert(devices[k].name != name);
    }
    if i < k {
        assert(devices[i].name != name);
    }
}

/// A name that no device has is at no position.
pub proof fn lemma_position_none(devices: Seq<KDEConnectView>, name: Seq<char>)
    requires
        forall|j: int| 0 <= j < devices.len() ==> (#[trigger] devices[j]).name != name,
    ensures
        position(devices, name) is None,
{
    if exists|i: int| first_named(devices, name, i) {
        let k = choose|i: int| first_named(devices, name, i);
        assert(devices[k].name != name);
    }
}

/// Putting a device among devices with distinct names keeps the names distinct.
pub proof fn lemma_put_distinct(devices: Seq<KDEConnectView>, device: KDEConnectView)
    requires
        distinct(devices),
    ensures
        distinct(put(devices, device)),
{
    let after = put(devices, device);
    match position(devices, device.name) {
        Some(i) => {
            assert(first_named(devices, device.name, i));
            assert forall|a: int, b: int| 0 <= a < b < after.len() implies (#[trigger] after[a]).name
                != (#[trigger] after[b]).name by {
                if a == i {
                    assert(devices[a].name != devices[b].name);
                } else if b == i {
                    assert(devices[a].name != devices[b].name);
                } else {
                    assert(devices[a].name != devices[b].name);
                }
            }
        },
        None => {
            assert forall|a: int, b: int| 0 <= a < b < after.len() implies (#[trigger] after[a]).name
                != (#[trigger] after[b]).name by {
                if b == devices.len() {
                    if devices[a].name == device.name {
                        lemma_first_exists(devices, device.name, a);
                    }
                } else {
                    assert(devices[a].name != devices[b].name);
                }
            }
        },
    }
}

/// A name that some device has is at a position.
pub proof fn lemma_first_exists(devices: Seq<KDEConnectView>, name: Seq<char>, at: int)
    requires
        0 <= at < devices.len(),
        devices[at].name == name,
    ensures
        position(devices, name) is Some,
    decreases at,
{
    if forall|j: int| 0 <= j < at ==> (#[trigger] devices[j]).name != name {
        assert(first_named(devices, name, at));
    } else {
        let j = choose|j: int| 0 <= j < at && (#[trigger] devices[j]).name == name;
        lemma_first_exists(devices, name, j);
    }
}

/// The place of the device named `name` in `devices`, if one has that name.
pub fn index_of(devices: &Vec<KDEConnect>, name: &str) -> (r: Option<usize>)
    ensures
        match position(devices.deep_view(), name@) {
            Some(i) => r == Some(i as usize) && i < devices.len(),
            None => r is None,
        },
{
    let mut i: usize = 0;
    while i < devices.len()
        invariant
            i <= devices.len(),
            devices.deep_view().len() == devices.len(),
            forall|j: int| 0 <= j < i ==> (#[trigger] devices.deep_view()[j]).name != name@,
        decreases devices.len() - i,
    {
        assert(devices.deep_view()[i as int] == devices@[i as int]@);
        if equal(devices[i].name(), name) {
            proof {
                lemma_position_found(devices.deep_view(), name@, i as int);
            }
            return Some(i);
        }
        i += 1;
    }
    proof {
        lemma_position_none(devices.deep_view(), name@);
    }
    None
}

/// Puts `device` among `devices`: it takes the place of the device that had
/// its name, or the last place where none had it.
pub fn insert(devices: &mut Vec<KDEConnect>, device: KDEConnect)
    ensures
        final(devices).deep_view() == put(old(devices).deep_view(), device@),
        distinct(old(devices).deep_view()) ==> distinct(final(devices).deep_view()),
{
    let ghost before = devices.deep_view();
    let ghost shown = device@;
    proof {
        if distinct(before) {
            lemma_put_distinct(before, shown);
        }
    }
    match index_of(devices, device.name()) {
        Some(at) => {
            devices.set(at, device);
            assert(devices.deep_view() =~= before.update(at as int, shown));
        },
        None => {
            devices.push(device);
            assert(devices.deep_view() =~= before.push(shown));
        },
    }
}

/// The devices by name that a command's output lists, with a warning if the
/// command wrote to its error stream; or the error that the command could
/// not be run, or that a line names no device.
pub open spec fn listed(outcome: Result<Output, String>) -> (
    Result<Seq<KDEConnectView>, error::KDEConnectView>,
    Option<Seq<char>>,
) {
    match outcome {
        Err(reason) => (Err(error::KDEConnectView::Cli(reason@)), None),
        Ok(output) => (
            match parsed(lines(utf8_lossy(output.stdout@))) {
                Ok(devices) => Ok(devices),
                Err(lack) => Err(error::KDEConnectView::Device(lack@)),
            },
            stderr_warning(output.stderr@),
        ),
    }
}

/// Every remote device that is known, by name, from the answer to the
/// request of `list::all`.
pub fn all(outcome: Result<Output, String>) -> (r: (
    Result<Vec<KDEConnect>, error::KDEConnect>,
    Option<String>,
))
    ensures
        match listed(outcome).0 {
            Ok(devices) => r.0 matches Ok(found) && found.deep_view() == devices && distinct(devices),
            Err(reason) => r.0 matches Err(e) && e@ == reason,
        },
        match listed(outcome).1 {
            Some(warning) => r.1 matches Some(text) && text@ == warning,
            None => r.1 is None,
        },
{
    let (stdout, warning) = execute(outcome);
    match stdout {
        Ok(stdout) => (parse(stdout.as_str()), warning),
        Err(e) => (Err(e), warning),
    }
}

/// The remote devices that can be reached now, by name, from the answer to
/// the request of `list::available`.
pub fn available(outcome: Result<Output, String>) -> (r: (
    Result<Vec<KDEConnect>, error::KDEConnect>,
    Option<String>,
))
    ensures
        match listed(outcome).0 {
            Ok(devices) => r.0 matches Ok(found) && found.deep_view() == devices && distinct(devices),
            Err(reason) => r.0 matches Err(e) && e@ == reason,
        },
        match listed(outcome).1 {
            Some(warning) => r.1 matches Some(text) && text@ == warning,
            None => r.1 is None,
        },
{
    all(outcome)
}

/// Reads a listing, a line for each device: the devices by name. A line that
/// names no device ends it with what the line lacks.
pub fn parse(list: &str) -> (r: Result<Vec<KDEConnect>, error::KDEConnect>)
    ensures
        match parsed(lines(list@)) {
            Ok(devices) => r matches Ok(found) && found.deep_view() == devices && distinct(devices),
            Err(lack) => r matches Err(error::KDEConnect::Device(e)) && e == lack,
        },
{
    let listing = split_lines(list);
    let mut devices: Vec<KDEConnect> = Vec::new();
    let mut i: usize = 0;
    assert(listing.deep_view().take(0) =~= Seq::<Seq<char>>::empty());
    assert(devices.deep_view() =~= Seq::<KDEConnectView>::empty());
    while i < listing.len()
        invariant
            i <= listing.len(),
            listing.deep_view().len() == listing.len(),
            listing.deep_view() == lines(list@),
            parsed(listing.deep_view().take(i as int)) == Ok::<
                Seq<KDEConnectView>,
                error::KDEConnectDevice,
            >(devices.deep_view()),
            distinct(devices.deep_view()),
        decreases listing.len() - i,
    {
        let ghost before = devices.deep_view();
        let ghost prefix = listing.deep_view().take(i as int + 1);
        assert(prefix.drop_last() =~= listing.deep_view().take(i as int));
        assert(prefix.last() == listing@[i as int]@);
        match KDEConnect::try_from(listing[i].as_str()) {
            Ok(device) => {
                insert(&mut devices, device);
            },
            Err(e) => {
                proof {
                    assert(parsed(prefix) == Err::<Seq<KDEConnectView>, error::KDEConnectDevice>(e));
                    lemma_parsed_fails(listing.deep_view(), i as int + 1);
                }
                return Err(error::KDEConnect::Device(e));
            },
        }
        i += 1;
    }
    assert(listing.deep_view().take(i as int) =~= listing.deep_view());
    Ok(devices)
}

/// A listing fails as its first part that fails.
pub proof fn lemma_parsed_fails(listing: Seq<Seq<char>>, n: int)
    requires
        0 <= n <= listing.len(),
        parsed(listing.take(n)) is Err,
    ensures
        parsed(listing) == parsed(listing.take(n)),
    decreases listing.len() - n,
{
    if n < listing.len() {
        let longer = listing.take(n + 1);
        assert(longer.drop_last() =~= listing.take(n));
        lemma_parsed_fails(listing, n + 1);
    } else {
        assert(listing.take(n) =~= listing);
    }
}

} // verus!

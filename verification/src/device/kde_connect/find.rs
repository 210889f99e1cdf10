//! Looking remote devices up by name.

use super::map::{index_of, position};
use super::{KDEConnect, KDEConnectView};
use crate::common::{warn_on_err, warning_text};
use crate::error;
use vstd::prelude::*;
use vstd::string::*;

verus! {

/// The device named `name` in `devices`, if one has that name.
pub open spec fn lookup(devices: Seq<KDEConnectView>, name: Seq<char>) -> Option<KDEConnectView> {
    match position(devices, name) {
        Some(i) => Some(devices[i]),
        None => None,
    }
}

/// `devices` without the device named `name`.
pub open spec fn without(devices: Seq<KDEConnectView>, name: Seq<char>) -> Seq<KDEConnectView> {
    match position(devices, name) {
        Some(i) => devices.remove(i),
        None => devices,
    }
}

/// What is left of `devices` once the devices named in `names` are taken out, one name after the other.
pub open spec fn left(devices: Seq<KDEConnectView>, names: Seq<Seq<char>>) -> Seq<KDEConnectView>
    decreases names.len(),
{
    if names.len() == 0 {
        devices
    } else {
        without(left(devices, names.drop_last()), names.last())
    }
}

/// The devices that `names` finds in `devices`, in the order of the names.
/// A device is found once: the name that finds it takes it out.
pub open spec fn found(devices: Seq<KDEConnectView>, names: Seq<Seq<char>>) -> Seq<KDEConnectView>
    decreases names.len(),
{
    if names.len() == 0 {
        Seq::empty()
    } else {
        let earlier = found(devices, names.drop_last());
        match lookup(left(devices, names.drop_last()), names.last()) {
            Some(device) => earlier.push(device),
            None => earlier,
        }
    }
}

/// What warns of a name that finds no device.
pub open spec fn warning(name: Seq<char>) -> Seq<char> {
    warning_text("device/kde_connect"@, "not found: name = "@ + name)
}

/// The warnings of the names in `names` that find no device in `devices`, in the order of the names.
pub open spec fn missed(devices: Seq<KDEConnectView>, names: Seq<Seq<char>>) -> Seq<Seq<char>>
    decreases names.len(),
{
    if names.len() == 0 {
        Seq::empty()
    } else {
        let earlier = missed(devices, names.drop_last());
        match lookup(left(devices, names.drop_last()), names.last()) {
            Some(_) => earlier,
            None => earlier.push(warning(names.last())),
        }
    }
}

/// Takes the devices named in `names` out of `devices`: the devices found, in
/// the order of the names, and a warning for each name that finds none.
pub fn all(devices: &mut Vec<KDEConnect>, names: &Vec<String>) -> (r: (Vec<KDEConnect>, Vec<String>))
    ensures
        r.0.deep_view() == found(old(devices).deep_view(), names.deep_view()),
        r.1.deep_view() == missed(old(devices).deep_view(), names.deep_view()),
        final(devices).deep_view() == left(old(devices).deep_view(), names.deep_view()),
{
    let ghost start = devices.deep_view();
    let mut taken: Vec<KDEConnect> = Vec::new();
    let mut warnings: Vec<String> = Vec::new();
    let mut i: usize = 0;
    assert(names.deep_view().take(0) =~= Seq::<Seq<char>>::empty());
    assert(taken.deep_view() =~= Seq::<KDEConnectView>::empty());
    assert(warnings.deep_view() =~= Seq::<Seq<char>>::empty());
    while i < names.len()
        invariant
            i <= names.len(),
            names.deep_view().len() == names.len(),
            taken.deep_view() == found(start, names.deep_view().take(i as int)),
            warnings.deep_view() == missed(start, names.deep_view().take(i as int)),
            devices.deep_view() == left(start, names.deep_view().take(i as int)),
        decreases names.len() - i,
    {
        let ghost prefix = names.deep_view().take(i as int + 1);
        assert(prefix.drop_last() =~= names.deep_view().take(i as int));
        assert(prefix.last() == names@[i as int]@);
        let ghost before = taken.deep_view();
        let ghost warned = warnings.deep_view();
        let (device, warning) = warn_on_err("device/kde_connect", one(devices, names[i].as_str()));
        match device {
            Some(device) => {
                let ghost shown = device@;
                taken.push(device);
                assert(taken.deep_view() =~= before.push(shown));
            },
            None => {},
        }
        match warning {
            Some(warning) => {
                let ghost text = warning@;
                warnings.push(warning);
                assert(warnings.deep_view() =~= warned.push(text));
            },
            None => {},
        }
        i += 1;
    }
    assert(names.deep_view().take(i as int) =~= names.deep_view());
    (taken, warnings)
}

/// Takes the device named `name` out of `devices`.
pub fn one(devices: &mut Vec<KDEConnect>, name: &str) -> (r: Result<
    KDEConnect,
    error::KDEConnectDevice,
>)
    ensures
        final(devices).deep_view() == without(old(devices).deep_view(), name@),
        match lookup(old(devices).deep_view(), name@) {
            Some(device) => r matches Ok(d) && d@ == device,
            None => r matches Err(error::KDEConnectDevice::NotFound { name: n }) && n@ == name@,
        },
{
    match index_of(devices, name) {
        Some(at) => {
            let ghost before = devices.deep_view();
            assert(before[at as int] == devices@[at as int]@);
            let device = devices.remove(at);
            assert(devices.deep_view() =~= before.remove(at as int));
            Ok(device)
        },
        None => Err(error::KDEConnectDevice::NotFound { name: String::from_str(name) }),
    }
}

} // verus!

//! The devices that the crate knows: batteries and remote devices.

pub use self::battery::{Battery, State as BatteryState};
pub use self::kde_connect::KDEConnect;
use crate::common::{numbered_line, print_slice, Describe};
use vstd::prelude::*;
use vstd::string::*;

pub mod battery;
pub mod kde_connect;

verus! {

/// A kind of device.
#[derive(Debug, Copy, Eq, PartialEq, Clone, Structural)]
pub enum Type {
    Battery,
    KDEConnect,
}

/// The lines that head a list of devices of a kind: the kind between two empty lines.
pub open spec fn heading(title: Type) -> Seq<Seq<char>> {
    seq![""@, title.text() + " Devices"@, ""@]
}

impl Type {
    /// The lines that list `devices`, the texts of the devices of this kind:
    /// the heading, then a numbered line for each device.
    pub fn print(self, devices: &Vec<String>) -> (lines: Vec<String>)
        ensures
            lines.len() == 3 + devices.len(),
            lines.deep_view().take(3) == heading(self),
            forall|i: int|
                0 <= i < devices.len() ==> (#[trigger] lines@[3 + i])@ == numbered_line(
                    i,
                    devices@[i]@,
                ),
    {
        print_devices(self, devices)
    }
}

/// The lines that list `slice` under the heading of `title`.
fn print_devices(title: Type, slice: &Vec<String>) -> (lines: Vec<String>)
    ensures
        lines.len() == 3 + slice.len(),
        lines.deep_view().take(3) == heading(title),
        forall|i: int|
            0 <= i < slice.len() ==> (#[trigger] lines@[3 + i])@ == numbered_line(i, slice@[i]@),
{
    let mut lines: Vec<String> = Vec::new();
    lines.push(String::from_str(""));
    lines.push(title.describe().concat(" Devices"));
    lines.push(String::from_str(""));
    assert(lines.deep_view() =~= heading(title));
    let ghost head = lines@;
    let mut numbered = print_slice(slice);
    let ghost tail = numbered@;
    lines.append(&mut numbered);
    assert(lines@ =~= head + tail);
    assert(lines.deep_view().take(3) =~= heading(title)) by {
        assert forall|i: int| 0 <= i < 3 implies lines.deep_view().take(3)[i] == heading(title)[i] by {
            assert(lines@[i] == head[i]);
        }
    }
    assert forall|i: int| 0 <= i < slice.len() implies (#[trigger] lines@[3 + i])@ == numbered_line(
        i,
        slice@[i]@,
    ) by {
        assert(lines@[3 + i] == tail[i]);
    }
    lines
}

impl Describe for Type {
    open spec fn text(&self) -> Seq<char> {
        match self {
            Type::Battery => "Battery"@,
            Type::KDEConnect => "KDE Connect"@,
        }
    }

    fn describe(&self) -> (s: String) {
        match self {
            Type::Battery => String::from_str("Battery"),
            Type::KDEConnect => String::from_str("KDE Connect"),
        }
    }
}

} // verus!

//! Remote device.

use crate::common::{slice_to_string, Describe};
use crate::error;
use crate::platform::{Output, Request};
use crate::text::{split_whitespace, trim, trimmed, utf8_lossy, words};
use vstd::prelude::*;
use vstd::string::*;

pub mod find;
pub mod list;
pub mod map;

verus! {

/// A remote device: its id and its name.
#[derive(Clone, Debug, PartialEq, Eq)]
pub struct KDEConnect {
    id: String,
    name: String,
}

/// A remote device as the contracts see it.
pub struct KDEConnectView {
    pub id: Seq<char>,
    pub name: Seq<char>,
}

impl View for KDEConnect {
    type V = KDEConnectView;

    closed spec fn view(&self) -> KDEConnectView {
        KDEConnectView { id: self.id@, name: self.name@ }
    }
}

impl DeepView for KDEConnect {
    type V = KDEConnectView;

    open spec fn deep_view(&self) -> KDEConnectView {
        self@
    }
}

/// The arguments that ping the device `id` with `message`. The message stands
/// in quotes: without them only its first word would be sent.
pub open spec fn ping_args(id: Seq<char>, message: Seq<char>) -> Seq<Seq<char>> {
    seq!["--device"@, id, "--ping-msg"@, "\""@ + message + "\""@]
}

/// The device that the words of a line name: the first word is the id, the
/// second the name, and what follows does not count; or what the line lacks.
pub open spec fn named_by(found: Seq<Seq<char>>) -> Result<KDEConnectView, error::KDEConnectDevice> {
    if found.len() == 0 {
        Err(error::KDEConnectDevice::ID)
    } else if found.len() == 1 {
        Err(error::KDEConnectDevice::Name)
    } else {
        Ok(KDEConnectView { id: found[0], name: found[1] })
    }
}

/// The device that a line of a listing names, or what the line lacks.
pub open spec fn device_of(line: Seq<char>) -> Result<KDEConnectView, error::KDEConnectDevice> {
    named_by(words(line))
}

/// What warns of `stderr`, the text that a command wrote to its error
/// stream: nothing if it is empty, else the text without the white space around it.
pub open spec fn complaint(stderr: Seq<char>) -> Option<Seq<char>> {
    if stderr.len() == 0 {
        None
    } else {
        Some("kdeconnect/cli: stderr = "@ + trimmed(stderr))
    }
}

/// What warns of `stderr`, the bytes that a command wrote to its error stream.
pub open spec fn stderr_warning(stderr: Seq<u8>) -> Option<Seq<char>> {
    complaint(utf8_lossy(stderr))
}

/// The text of a remote device.
pub open spec fn device_text(device: KDEConnectView) -> Seq<char> {
    "KDE Connect Device: name = "@ + device.name + ", id = "@ + device.id
}

impl KDEConnect {
    /// The id of the device.
    pub fn id(&self) -> (id: &str)
        ensures
            id@ == self@.id,
    {
        self.id.as_str()
    }

    /// The name of the device.
    pub fn name(&self) -> (name: &str)
        ensures
            name@ == self@.name,
    {
        self.name.as_str()
    }

    /// A device that holds what this one holds.
    pub fn copy(&self) -> (device: KDEConnect)
        ensures
            device@ == self@,
    {
        KDEConnect { id: self.id.clone(), name: self.name.clone() }
    }

    /// The request that pings the device with `message`.
    pub fn ping(&self, message: &str) -> (request: Request)
        ensures
            request@ == (crate::platform::RequestView::Execute {
                args: ping_args(self@.id, message@),
            }),
    {
        let mut args: Vec<String> = Vec::new();
        args.push(String::from_str("--device"));
        args.push(self.id.clone());
        args.push(String::from_str("--ping-msg"));
        args.push(String::from_str("\"").concat(message).concat("\""));
        assert(args.deep_view() =~= ping_args(self@.id, message@));
        Request::Execute { args }
    }

    /// Reads a line of a listing: the id, white space, the name.
    pub fn try_from(value: &str) -> (r: Result<Self, error::KDEConnectDevice>)
        ensures
            match device_of(value@) {
                Ok(device) => r matches Ok(d) && d@ == device,
                Err(lack) => r matches Err(e) && e == lack,
            },
    {
        KDEConnect::from_words(split_whitespace(value))
    }

    /// The device that the words of a line name: the id comes first, the name second.
    pub fn from_words(data: Vec<String>) -> (r: Result<Self, error::KDEConnectDevice>)
        ensures
            match named_by(data.deep_view()) {
                Ok(device) => r matches Ok(d) && d@ == device,
                Err(lack) => r matches Err(e) && e == lack,
            },
    {
        let mut data = data;
        assert(data.deep_view().len() == data@.len());
        if data.len() == 0 {
            return Err(error::KDEConnectDevice::ID);
        }
        if data.len() == 1 {
            return Err(error::KDEConnectDevice::Name);
        }
        assert(data.deep_view()[0] == data@[0]@);
        assert(data.deep_view()[1] == data@[1]@);
        let name = data.swap_remove(1);
        let id = data.swap_remove(0);
        Ok(KDEConnect { id, name })
    }
}

/// The warning of what a command wrote to its error stream, if it wrote anything.
pub fn complain(stderr: &str) -> (warning: Option<String>)
    ensures
        match complaint(stderr@) {
            Some(text) => warning matches Some(w) && w@ == text,
            None => warning is None,
        },
{
    if !stderr.is_empty() {
        Some(String::from_str("kdeconnect/cli: stderr = ").concat(trim(stderr)))
    } else {
        None
    }
}

/// Takes what the command gave: its output as text, with a warning if it
/// wrote to its error stream; or the error that it could not be run.
pub fn execute(outcome: Result<Output, String>) -> (r: (
    Result<String, error::KDEConnect>,
    Option<String>,
))
    ensures
        match outcome {
            Ok(output) => {
                &&& r.0 matches Ok(stdout) && stdout@ == utf8_lossy(output.stdout@)
                &&& match stderr_warning(output.stderr@) {
                    Some(warning) => r.1 matches Some(text) && text@ == warning,
                    None => r.1 is None,
                }
            },
            Err(reason) => {
                &&& r.0 matches Err(error::KDEConnect::Cli(text)) && text@ == reason@
                &&& r.1 is None
            },
        },
{
    match outcome {
        Ok(output) => {
            let stderr = slice_to_string(output.stderr.as_slice());
            let warning = complain(stderr.as_str());
            let stdout = slice_to_string(output.stdout.as_slice());
            (Ok(stdout), warning)
        },
        Err(reason) => (Err(error::KDEConnect::Cli(reason)), None),
    }
}

impl Describe for KDEConnect {
    open spec fn text(&self) -> Seq<char> {
        device_text(self@)
    }

    fn describe(&self) -> (s: String) {
        String::from_str("KDE Connect Device: name = ").concat(self.name.as_str()).concat(
            ", id = ",
        ).concat(self.id.as_str())
    }
}

} // verus!

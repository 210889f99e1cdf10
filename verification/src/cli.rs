//! What the command line asks for.

use crate::device::Type;
use vstd::prelude::*;

verus! {

/// The threshold where the command line names none.
pub const DEFAULT_THRESHOLD: u8 = 80;

/// The seconds between two looks at the battery where the command line names none.
pub const DEFAULT_REFRESH_SECS: u64 = 30;

/// A command of the command line.
#[derive(Debug, Clone, PartialEq, Eq)]
pub enum Command {
    /// Alert whenever the charge reaches the threshold while the battery is charging.
    Notify {
        threshold: u8,
        model: Option<String>,
        refresh_secs: u64,
        summary: String,
        body: String,
        /// The names of the remote devices to ping: absent to ping none, empty to ping all.
        kde_connect_names: Option<Vec<String>>,
        disable_desktop: bool,
    },
    /// List the batteries of the system.
    Batteries,
    /// List the remote devices.
    KDEConnectDevices,
}

impl Command {
    /// The kind of device that the command lists, if it lists devices.
    pub fn lists(&self) -> (kind: Option<Type>)
        ensures
            kind == match self {
                Command::Notify { .. } => None,
                Command::Batteries => Some(Type::Battery),
                Command::KDEConnectDevices => Some(Type::KDEConnect),
            },
    {
        match self {
            Command::Notify { .. } => None,
            Command::Batteries => Some(Type::Battery),
            Command::KDEConnectDevices => Some(Type::KDEConnect),
        }
    }
}

} // verus!

//! The errors of the crate, each with the text that the user gets to see.

use crate::common::Describe;
use vstd::prelude::*;
use vstd::string::*;

verus! {

/// Why the wait on the shutdown channel ended without a value.
#[derive(Debug, Clone, Copy, PartialEq, Eq, Structural)]
pub enum RecvTimeout {
    /// Nothing arrived in time.
    Timeout,
    /// No sender is left.
    Disconnected,
}

/// The model that a battery was looked for by, if any.
#[derive(Debug, Clone, PartialEq, Eq)]
pub struct Model(pub Option<String>);

/// What a battery does not tell about itself.
#[derive(Debug, Clone, Copy, PartialEq, Eq, Structural)]
pub enum BatteryDevice {
    Model,
    SerialNumber,
}

/// What went wrong with a battery.
#[derive(Debug, Clone, PartialEq, Eq)]
pub enum Battery {
    /// The power supply could not be read; the text says why.
    Routine(String),
    /// No battery, or no single one, answers to the model.
    NotFound { model: Model },
    Device(BatteryDevice),
}

/// What went wrong with the notifications.
#[derive(Debug, Clone, PartialEq, Eq)]
pub enum Notification {
    Config { kind: String },
    /// The desktop turned an alert down; the text says why.
    Desktop(String),
}

/// What a remote device's line in a listing lacks, or that no line names it.
#[derive(Debug, Clone, PartialEq, Eq)]
pub enum KDEConnectDevice {
    NotFound { name: String },
    ID,
    Name,
}

/// What went wrong with the remote devices.
#[derive(Debug, Clone, PartialEq, Eq)]
pub enum KDEConnect {
    /// The command could not be run; the text says why.
    Cli(String),
    Device(KDEConnectDevice),
}

/// What went wrong around the process.
#[derive(Debug, Clone, PartialEq, Eq)]
pub enum System {
    /// The signal handler could not be registered; the text says why.
    Handler(String),
    RecvTimeout(RecvTimeout),
    /// The platform answered a request that was not the last one made.
    Unexpected,
}

#[derive(Debug, Clone, PartialEq, Eq)]
pub enum Error {
    Battery(Battery),
    KDEConnect(KDEConnect),
    Notification(Notification),
    System(System),
}

/// What went wrong with a battery, as the contracts see it.
pub enum BatteryView {
    Routine(Seq<char>),
    NotFound { model: Option<Seq<char>> },
    Device(BatteryDevice),
}

/// What went wrong with the notifications, as the contracts see it.
pub enum NotificationView {
    Config { kind: Seq<char> },
    Desktop(Seq<char>),
}

/// What is wrong with a remote device, as the contracts see it.
pub enum KDEConnectDeviceView {
    NotFound { name: Seq<char> },
    ID,
    Name,
}

/// What went wrong with the remote devices, as the contracts see it.
pub enum KDEConnectView {
    Cli(Seq<char>),
    Device(KDEConnectDeviceView),
}

/// What went wrong around the process, as the contracts see it.
pub enum SystemView {
    Handler(Seq<char>),
    RecvTimeout(RecvTimeout),
    Unexpected,
}

/// An error as the contracts see it.
pub enum ErrorView {
    Battery(BatteryView),
    KDEConnect(KDEConnectView),
    Notification(NotificationView),
    System(SystemView),
}

impl View for Battery {
    type V = BatteryView;

    open spec fn view(&self) -> BatteryView {
        match self {
            Battery::Routine(reason) => BatteryView::Routine(reason@),
            Battery::NotFound { model } => BatteryView::NotFound {
                model: match model.0 {
                    Some(name) => Some(name@),
                    None => None,
                },
            },
            Battery::Device(device) => BatteryView::Device(*device),
        }
    }
}

impl View for Notification {
    type V = NotificationView;

    open spec fn view(&self) -> NotificationView {
        match self {
            Notification::Config { kind } => NotificationView::Config { kind: kind@ },
            Notification::Desktop(reason) => NotificationView::Desktop(reason@),
        }
    }
}

impl View for KDEConnectDevice {
    type V = KDEConnectDeviceView;

    open spec fn view(&self) -> KDEConnectDeviceView {
        match self {
            KDEConnectDevice::NotFound { name } => KDEConnectDeviceView::NotFound { name: name@ },
            KDEConnectDevice::ID => KDEConnectDeviceView::ID,
            KDEConnectDevice::Name => KDEConnectDeviceView::Name,
        }
    }
}

impl View for KDEConnect {
    type V = KDEConnectView;

    open spec fn view(&self) -> KDEConnectView {
        match self {
            KDEConnect::Cli(reason) => KDEConnectView::Cli(reason@),
            KDEConnect::Device(device) => KDEConnectView::Device(device@),
        }
    }
}

impl View for System {
    type V = SystemView;

    open spec fn view(&self) -> SystemView {
        match self {
            System::Handler(reason) => SystemView::Handler(reason@),
            System::RecvTimeout(reason) => SystemView::RecvTimeout(*reason),
            System::Unexpected => SystemView::Unexpected,
        }
    }
}

impl View for Error {
    type V = ErrorView;

    open spec fn view(&self) -> ErrorView {
        match self {
            Error::Battery(e) => ErrorView::Battery(e@),
            Error::KDEConnect(e) => ErrorView::KDEConnect(e@),
            Error::Notification(e) => ErrorView::Notification(e@),
            Error::System(e) => ErrorView::System(e@),
        }
    }
}

/// An error of a platform: its text is that of what the contracts see of it.
pub trait Failure: Describe + View {
    /// The text of the error that the contracts see as `view`.
    spec fn written(view: Self::V) -> Seq<char>;

    /// The text of an error is the text of its view.
    proof fn lemma_written(&self)
        ensures
            self.text() == Self::written(self@),
    ;
}

impl Failure for Notification {
    open spec fn written(view: NotificationView) -> Seq<char> {
        match view {
            NotificationView::Config { kind } => "configuration failure: "@ + kind,
            NotificationView::Desktop(reason) => "desktop: "@ + reason,
        }
    }

    proof fn lemma_written(&self) {
    }
}

impl Failure for KDEConnect {
    open spec fn written(view: KDEConnectView) -> Seq<char> {
        match view {
            KDEConnectView::Cli(reason) => "CLI is not installed: "@ + reason,
            KDEConnectView::Device(KDEConnectDeviceView::NotFound { name }) => "device: "@ + (
            "not found: name = "@ + name),
            KDEConnectView::Device(KDEConnectDeviceView::ID) => "device: "@
                + "failed to retrieve id"@,
            KDEConnectView::Device(KDEConnectDeviceView::Name) => "device: "@
                + "failed to retrieve name"@,
        }
    }

    proof fn lemma_written(&self) {
    }
}

impl Describe for RecvTimeout {
    open spec fn text(&self) -> Seq<char> {
        match self {
            RecvTimeout::Timeout => "timed out waiting on channel"@,
            RecvTimeout::Disconnected => "channel is empty and sending half is closed"@,
        }
    }

    fn describe(&self) -> (s: String) {
        match self {
            RecvTimeout::Timeout => String::from_str("timed out waiting on channel"),
            RecvTimeout::Disconnected => String::from_str(
                "channel is empty and sending half is closed",
            ),
        }
    }
}

impl Describe for Model {
    open spec fn text(&self) -> Seq<char> {
        match self.0 {
            None => "None"@,
            Some(model) => model@,
        }
    }

    fn describe(&self) -> (s: String) {
        match &self.0 {
            None => String::from_str("None"),
            Some(model) => model.clone(),
        }
    }
}

impl Describe for BatteryDevice {
    open spec fn text(&self) -> Seq<char> {
        match self {
            BatteryDevice::Model => "failed to retrieve model"@,
            BatteryDevice::SerialNumber => "failed to retrieve serial number"@,
        }
    }

    fn describe(&self) -> (s: String) {
        match self {
            BatteryDevice::Model => String::from_str("failed to retrieve model"),
            BatteryDevice::SerialNumber => String::from_str("failed to retrieve serial number"),
        }
    }
}

impl Describe for Battery {
    open spec fn text(&self) -> Seq<char> {
        match self {
            Battery::Routine(reason) => "routine failure: "@ + reason@,
            Battery::NotFound { model } => "device not found: model = \""@ + model.text() + "\""@,
            Battery::Device(device) => "device: "@ + device.text(),
        }
    }

    fn describe(&self) -> (s: String) {
        match self {
            Battery::Routine(reason) => String::from_str("routine failure: ").concat(
                reason.as_str(),
            ),
            Battery::NotFound { model } => String::from_str("device not found: model = \"").concat(
                model.describe().as_str(),
            ).concat("\""),
            Battery::Device(device) => String::from_str("device: ").concat(
                device.describe().as_str(),
            ),
        }
    }
}

impl Describe for Notification {
    open spec fn text(&self) -> Seq<char> {
        match self {
            Notification::Config { kind } => "configuration failure: "@ + kind@,
            Notification::Desktop(reason) => "desktop: "@ + reason@,
        }
    }

    fn describe(&self) -> (s: String) {
        match self {
            Notification::Config { kind } => String::from_str("configuration failure: ").concat(
                kind.as_str(),
            ),
            Notification::Desktop(reason) => String::from_str("desktop: ").concat(reason.as_str()),
        }
    }
}

impl Describe for KDEConnectDevice {
    open spec fn text(&self) -> Seq<char> {
        match self {
            KDEConnectDevice::NotFound { name } => "not found: name = "@ + name@,
            KDEConnectDevice::ID => "failed to retrieve id"@,
            KDEConnectDevice::Name => "failed to retrieve name"@,
        }
    }

    fn describe(&self) -> (s: String) {
        match self {
            KDEConnectDevice::NotFound { name } => String::from_str("not found: name = ").concat(
                name.as_str(),
            ),
            KDEConnectDevice::ID => String::from_str("failed to retrieve id"),
            KDEConnectDevice::Name => String::from_str("failed to retrieve name"),
        }
    }
}

impl Describe for KDEConnect {
    open spec fn text(&self) -> Seq<char> {
        match self {
            KDEConnect::Cli(reason) => "CLI is not installed: "@ + reason@,
            KDEConnect::Device(device) => "device: "@ + device.text(),
        }
    }

    fn describe(&self) -> (s: String) {
        match self {
            KDEConnect::Cli(reason) => String::from_str("CLI is not installed: ").concat(
                reason.as_str(),
            ),
            KDEConnect::Device(device) => String::from_str("device: ").concat(
                device.describe().as_str(),
            ),
        }
    }
}

impl Describe for System {
    open spec fn text(&self) -> Seq<char> {
        match self {
            System::Handler(reason) => "signal handler: "@ + reason@,
            System::RecvTimeout(reason) => "receive timeout: "@ + reason.text(),
            System::Unexpected => "answer to a request that was not made"@,
        }
    }

    fn describe(&self) -> (s: String) {
        match self {
            System::Handler(reason) => String::from_str("signal handler: ").concat(
                reason.as_str(),
            ),
            System::RecvTimeout(reason) => String::from_str("receive timeout: ").concat(
                reason.describe().as_str(),
            ),
            System::Unexpected => String::from_str("answer to a request that was not made"),
        }
    }
}

impl Describe for Error {
    open spec fn text(&self) -> Seq<char> {
        match self {
            Error::Battery(e) => "Battery: "@ + e.text(),
            Error::KDEConnect(e) => "KDE Connect: "@ + e.text(),
            Error::Notification(e) => "Notification: "@ + e.text(),
            Error::System(e) => "System: "@ + e.text(),
        }
    }

    fn describe(&self) -> (s: String) {
        match self {
            Error::Battery(e) => String::from_str("Battery: ").concat(e.describe().as_str()),
            Error::KDEConnect(e) => String::from_str("KDE Connect: ").concat(
                e.describe().as_str(),
            ),
            Error::Notification(e) => String::from_str("Notification: ").concat(
                e.describe().as_str(),
            ),
            Error::System(e) => String::from_str("System: ").concat(e.describe().as_str()),
        }
    }
}

} // verus!

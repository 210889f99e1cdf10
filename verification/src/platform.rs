//! What the crate asks of the platform around it, and what the platform answers.
//!
//! The crate shows no alert, runs no command and reads no battery itself: a
//! function that needs one of these returns a [`Request`], the caller performs
//! it and hands back the [`Answer`].

use crate::device::battery::Reading;
use vstd::prelude::*;

verus! {

/// How urgent an alert is.
#[derive(Debug, Clone, Copy, PartialEq, Eq, Structural)]
pub enum Urgency {
    Low,
    Normal,
    Critical,
}

/// When an alert goes away by itself.
#[derive(Debug, Clone, Copy, PartialEq, Eq, Structural)]
pub enum Timeout {
    Default,
    Never,
    Milliseconds(u32),
}

/// An alert for the desktop.
#[derive(Debug, Clone, PartialEq, Eq)]
pub struct Alert {
    pub appname: String,
    pub summary: String,
    pub body: String,
    pub icon: String,
    pub timeout: Timeout,
    pub urgency: Urgency,
}

/// An alert as the contracts see it.
pub struct AlertView {
    pub appname: Seq<char>,
    pub summary: Seq<char>,
    pub body: Seq<char>,
    pub icon: Seq<char>,
    pub timeout: Timeout,
    pub urgency: Urgency,
}

impl View for Alert {
    type V = AlertView;

    open spec fn view(&self) -> AlertView {
        AlertView {
            appname: self.appname@,
            summary: self.summary@,
            body: self.body@,
            icon: self.icon@,
            timeout: self.timeout,
            urgency: self.urgency,
        }
    }
}

/// What a command wrote before it ended.
#[derive(Debug, Clone, PartialEq, Eq)]
pub struct Output {
    pub stdout: Vec<u8>,
    pub stderr: Vec<u8>,
}

/// How a wait on the shutdown channel ended.
#[derive(Debug, Clone, Copy, PartialEq, Eq, Structural)]
pub enum Signal {
    /// A value arrived: the process is asked to stop.
    Cancelled,
    /// Nothing arrived in time.
    TimedOut,
    /// No sender is left.
    Disconnected,
}

/// What the platform is asked to do next.
#[derive(Debug, Clone, PartialEq, Eq)]
pub enum Request {
    /// Show a new alert on the desktop. Answered by [`Answer::Shown`].
    Show(Alert),
    /// Give the alert `id` a new summary and body, and show it again.
    /// Answered by [`Answer::Updated`].
    Update { id: u32, summary: String, body: String },
    /// Close the alert `id`. Answered by [`Answer::Closed`].
    Close { id: u32 },
    /// Run the remote devices' command with `args`. Answered by [`Answer::Executed`].
    Execute { args: Vec<String> },
    /// Wait for a value on the shutdown channel, `secs` seconds at most.
    /// Answered by [`Answer::Waited`].
    Wait { secs: u64 },
    /// Look at the battery again. Answered by [`Answer::Refreshed`].
    Refresh,
    /// End the process with success. Not answered.
    Exit,
}

/// A request as the contracts see it.
pub enum RequestView {
    Show(AlertView),
    Update { id: u32, summary: Seq<char>, body: Seq<char> },
    Close { id: u32 },
    Execute { args: Seq<Seq<char>> },
    Wait { secs: u64 },
    Refresh,
    Exit,
}

impl View for Request {
    type V = RequestView;

    open spec fn view(&self) -> RequestView {
        match self {
            Request::Show(alert) => RequestView::Show(alert@),
            Request::Update { id, summary, body } => RequestView::Update {
                id: *id,
                summary: summary@,
                body: body@,
            },
            Request::Close { id } => RequestView::Close { id: *id },
            Request::Execute { args } => RequestView::Execute { args: args.deep_view() },
            Request::Wait { secs } => RequestView::Wait { secs: *secs },
            Request::Refresh => RequestView::Refresh,
            Request::Exit => RequestView::Exit,
        }
    }
}

/// What the platform made of the last request. An error is given by its text.
#[derive(Debug, PartialEq, Eq)]
pub enum Answer {
    /// The alert is shown under the id, or the desktop turned it down.
    Shown(Result<u32, String>),
    /// The alert is shown with its new text, or the desktop turned it down.
    Updated(Result<(), String>),
    /// The alert is closed.
    Closed,
    /// The command ended and wrote this, or it could not be run.
    Executed(Result<Output, String>),
    /// The wait ended.
    Waited(Signal),
    /// The battery was looked at, or could not be read.
    Refreshed(Result<Reading, String>),
}

} // verus!

//! Setting the watch up.

use crate::common::Describe;
use crate::device::battery::{chosen, Reading};
use crate::device::Battery;
use crate::error;
use crate::event::{consistent, loop_, round, Loop, LoopView, Stage};
use crate::notification::kde_connect::{checked, kept};
use crate::notification::message::{rendered, set_up, MessageView};
use crate::notification::{made, Message, Notifier};
use crate::parser::{out_of_range, range, THRESHOLD_MAX};
use crate::platform::{Output, Request};
use vstd::prelude::*;
use vstd::string::*;

verus! {

/// What is wrong with the settings, if anything: alerts have to go
/// somewhere, and the threshold is a percentage.
pub open spec fn misconfigured(threshold: u8, remote: bool, disable_desktop: bool) -> Option<
    Seq<char>,
> {
    if disable_desktop && !remote {
        Some("both desktop and KDE connect can't be disabled"@)
    } else if threshold > THRESHOLD_MAX {
        Some("threshold "@ + out_of_range())
    } else {
        None
    }
}

/// The loop before its first round, or the error that keeps it
/// from starting: the settings are checked, the battery is chosen, the
/// message is made for it, and the notifiers are made.
pub open spec fn prepared(
    threshold: u8,
    model: Option<Seq<char>>,
    refresh_secs: u64,
    summary: Seq<char>,
    body: Seq<char>,
    kde_connect: Option<(Vec<String>, Result<Output, String>, Result<Output, String>)>,
    disable_desktop: bool,
    batteries: Result<Vec<Result<Reading, String>>, String>,
) -> Result<LoopView, error::ErrorView> {
    match misconfigured(threshold, kde_connect is Some, disable_desktop) {
        Some(kind) => Err(error::ErrorView::Notification(error::NotificationView::Config { kind })),
        None => match chosen(model, batteries) {
            Err(reason) => Err(error::ErrorView::Battery(reason)),
            Ok(battery) => {
                let summary_template = set_up(summary, threshold, battery.model, refresh_secs);
                let body_template = set_up(body, threshold, battery.model, refresh_secs);
                let ready = LoopView {
                    battery,
                    message: MessageView {
                        summary: rendered(summary_template, battery.percentage),
                        body: rendered(body_template, battery.percentage),
                        summary_template,
                        body_template,
                    },
                    notifier: made(threshold, kde_connect, disable_desktop),
                    refresh_secs,
                    stage: Stage::Notifying,
                    awaits: None,
                };
                match kde_connect {
                    None => Ok(ready),
                    Some((names, known, available)) => match checked(
                        kept(names.deep_view()),
                        known,
                        available,
                    ).0 {
                        Ok(_) => Ok(ready),
                        Err(reason) => Err(error::ErrorView::KDEConnect(reason)),
                    },
                }
            },
        },
    }
}

/// What setting the watch up warns of: what the listings of the remote
/// devices give rise to, once the settings are in order and the battery is chosen.
pub open spec fn cautioned(
    threshold: u8,
    model: Option<Seq<char>>,
    kde_connect: Option<(Vec<String>, Result<Output, String>, Result<Output, String>)>,
    disable_desktop: bool,
    batteries: Result<Vec<Result<Reading, String>>, String>,
) -> Seq<Seq<char>> {
    if misconfigured(threshold, kde_connect is Some, disable_desktop) is Some || chosen(
        model,
        batteries,
    ) is Err {
        Seq::empty()
    } else {
        match kde_connect {
            None => Seq::empty(),
            Some((names, known, available)) => checked(
                kept(names.deep_view()),
                known,
                available,
            ).1,
        }
    }
}

/// Sets the watch up and starts it: the loop, and its first request to the platform.
///
/// `kde_connect` switches the remote devices on: it holds their names, none
/// for all of them, the answer to the listing of all known devices, and the
/// answer to the listing of the devices that can be reached now. `batteries` holds the readings of the system's
/// batteries, or why the power supply could not be asked. The second part
/// of the result is what to warn of.
pub fn notify(
    threshold: u8,
    model: Option<&str>,
    refresh_secs: u64,
    summary: String,
    body: String,
    kde_connect: Option<(Vec<String>, Result<Output, String>, Result<Output, String>)>,
    disable_desktop: bool,
    batteries: Result<Vec<Result<Reading, String>>, String>,
) -> (r: (Result<(Loop, Request), error::Error>, Vec<String>))
    ensures
        match prepared(
            threshold,
            match model {
                Some(model) => Some(model@),
                None => None,
            },
            refresh_secs,
            summary@,
            body@,
            kde_connect,
            disable_desktop,
            batteries,
        ) {
            Ok(ready) => r.0 matches Ok((event_loop, request)) && event_loop@ == round(ready).0
                && request@ == round(ready).1 && consistent(event_loop@),
            Err(reason) => r.0 matches Err(e) && e@ == reason,
        },
        r.1.deep_view() == cautioned(
            threshold,
            match model {
                Some(model) => Some(model@),
                None => None,
            },
            kde_connect,
            disable_desktop,
            batteries,
        ),
{
    let names = match &kde_connect {
        Some((names, _, _)) => Some(names),
        None => None,
    };
    match validate_input(
        threshold,
        model,
        refresh_secs,
        summary.as_str(),
        body.as_str(),
        names,
        disable_desktop,
    ) {
        Ok(()) => {},
        Err(e) => {
            return (Err(e), silent());
        },
    }
    let battery_device = match Battery::from_model(model, &batteries) {
        Ok(battery_device) => battery_device,
        Err(e) => {
            return (Err(error::Error::Battery(e)), silent());
        },
    };
    let message = Message::new(summary, body, threshold, &battery_device, refresh_secs);
    let (notifier, warnings) = Notifier::new(threshold, kde_connect, disable_desktop);
    let notifier = match notifier {
        Ok(notifier) => notifier,
        Err(e) => {
            return (Err(e), warnings);
        },
    };
    let (event_loop, step) = loop_(battery_device, message, notifier, refresh_secs);
    (Ok((event_loop, step.request)), warnings)
}

/// No warnings.
fn silent() -> (warnings: Vec<String>)
    ensures
        warnings.deep_view() == Seq::<Seq<char>>::empty(),
{
    let warnings: Vec<String> = Vec::new();
    assert(warnings.deep_view() =~= Seq::<Seq<char>>::empty());
    warnings
}

/// Checks the settings: the alerts have to go somewhere, to the desktop or
/// to remote devices, and the threshold has to be a percentage.
pub fn validate_input(
    threshold: u8,
    _model: Option<&str>,
    _refresh_secs: u64,
    _summary: &str,
    _body: &str,
    kde_connect_names: Option<&Vec<String>>,
    disable_desktop: bool,
) -> (r: Result<(), error::Error>)
    ensures
        match misconfigured(threshold, kde_connect_names is Some, disable_desktop) {
            None => r is Ok,
            Some(reason) => r matches Err(
                error::Error::Notification(error::Notification::Config { kind }),
            ) && kind@ == reason,
        },
{
    if disable_desktop && kde_connect_names.is_none() {
        return Err(
            error::Error::Notification(
                error::Notification::Config {
                    kind: String::from_str("both desktop and KDE connect can't be disabled"),
                },
            ),
        );
    }
    if threshold > THRESHOLD_MAX {
        return Err(
            error::Error::Notification(
                error::Notification::Config {
                    kind: String::from_str("threshold ").concat(range().as_str()),
                },
            ),
        );
    }
    Ok(())
}

} // verus!

//! The loop that watches the battery, one step at a time.
//!
//! A round of the loop looks at the charge, shows the alert or takes it back,
//! waits for the refresh interval to pass, and looks at the battery again.
//! The loop does none of this itself. Each step returns the next request to
//! the platform, and the platform's answer starts the step after it.

use crate::device::battery::fetch::state_of;
use crate::device::battery::{BatteryView, State};
use crate::device::Battery;
use crate::error;
use crate::notification::message::{rendered, MessageView};
use crate::notification::operation::Operation;
use crate::notification::{
    asked, at_rest, in_order, lemma_in_order, notifying, removing, resuming, Message, Notifier,
    NotifierView, Turn,
};
use crate::platform::{Answer, Request, RequestView, Signal};
use vstd::prelude::*;

verus! {

/// Where the charge stands against the threshold.
#[derive(Debug, Clone, Copy, PartialEq, Eq, Structural)]
pub enum Level {
    BelowThreshold,
    AboveThresholdCharging,
    /// Counts as below the threshold: there is nothing to unplug.
    AboveThresholdNotCharging,
}

/// What the loop is doing.
#[derive(Debug, Clone, Copy, PartialEq, Eq, Structural)]
pub enum Stage {
    /// A notifier's request is out, in the course of a round.
    Notifying,
    /// The wait on the shutdown channel is out.
    Waiting,
    /// The look at the battery is out.
    Refreshing,
    /// The process was asked to stop, and a notifier's request is out.
    ShuttingDown,
    /// The loop has ended.
    Stopped,
}

/// The kinds of answers.
#[derive(Debug, Clone, Copy, PartialEq, Eq, Structural)]
pub enum Kind {
    Shown,
    Updated,
    Closed,
    Executed,
    Waited,
    Refreshed,
}

/// The loop: the battery as it was last seen, the message, the notifiers,
/// and how far the round is.
#[derive(Debug)]
pub struct Loop {
    battery: Battery,
    message: Message,
    notifier: Notifier,
    refresh_secs: u64,
    stage: Stage,
    awaits: Option<Kind>,
}

/// The loop as the contracts see it.
pub struct LoopView {
    pub battery: BatteryView,
    pub message: MessageView,
    pub notifier: NotifierView,
    pub refresh_secs: u64,
    pub stage: Stage,
    /// The kind of answer that fits the request that is out.
    pub awaits: Option<Kind>,
}

impl View for Loop {
    type V = LoopView;

    closed spec fn view(&self) -> LoopView {
        LoopView {
            battery: self.battery@,
            message: self.message@,
            notifier: self.notifier@,
            refresh_secs: self.refresh_secs,
            stage: self.stage,
            awaits: self.awaits,
        }
    }
}

/// What a step of the loop gives: what to ask of the platform next, and what to warn of first.
#[derive(Debug, Clone, PartialEq, Eq)]
pub struct Step {
    pub request: Request,
    pub warnings: Vec<String>,
}

/// Whether the user is alerted: the charge has reached the threshold and the battery is charging.
pub open spec fn alerts(percentage: u8, state: State, threshold: u8) -> bool {
    percentage >= threshold && state == State::Charging
}

/// Where a charge stands against the threshold.
pub open spec fn level_of(percentage: u8, state: State, threshold: u8) -> Level {
    if percentage < threshold {
        Level::BelowThreshold
    } else if state == State::Charging {
        Level::AboveThresholdCharging
    } else {
        Level::AboveThresholdNotCharging
    }
}

/// The kind of an answer.
pub open spec fn kind(answer: Answer) -> Kind {
    match answer {
        Answer::Shown(_) => Kind::Shown,
        Answer::Updated(_) => Kind::Updated,
        Answer::Closed => Kind::Closed,
        Answer::Executed(_) => Kind::Executed,
        Answer::Waited(_) => Kind::Waited,
        Answer::Refreshed(_) => Kind::Refreshed,
    }
}

/// The kind of answer that fits a request; none fits the request to exit.
pub open spec fn fitting(request: RequestView) -> Option<Kind> {
    match request {
        RequestView::Show(_) => Some(Kind::Shown),
        RequestView::Update { .. } => Some(Kind::Updated),
        RequestView::Close { .. } => Some(Kind::Closed),
        RequestView::Execute { .. } => Some(Kind::Executed),
        RequestView::Wait { .. } => Some(Kind::Waited),
        RequestView::Refresh => Some(Kind::Refreshed),
        RequestView::Exit => None,
    }
}

/// The loop after a notifier had its turn in the course of a round: the
/// notifier's request is out, or the wait where the notifiers ask for no more.
pub open spec fn going_on(l: LoopView, notifier: NotifierView, request: Option<RequestView>) -> (
    LoopView,
    RequestView,
) {
    match request {
        Some(request) => (
            LoopView { notifier, stage: Stage::Notifying, awaits: fitting(request), ..l },
            request,
        ),
        None => (
            LoopView { notifier, stage: Stage::Waiting, awaits: Some(Kind::Waited), ..l },
            RequestView::Wait { secs: l.refresh_secs },
        ),
    }
}

/// The loop after a notifier had its turn in the course of the shutdown: the
/// notifier's request is out, or the loop has ended and the process is to exit.
pub open spec fn leaving(l: LoopView, notifier: NotifierView, request: Option<RequestView>) -> (
    LoopView,
    RequestView,
) {
    match request {
        Some(request) => (
            LoopView { notifier, stage: Stage::ShuttingDown, awaits: fitting(request), ..l },
            request,
        ),
        None => (
            LoopView { notifier, stage: Stage::Stopped, awaits: None, ..l },
            RequestView::Exit,
        ),
    }
}

/// The start of a round: the message is made anew for the charge; the alert
/// is shown if the user is to be alerted, and taken back if not.
pub open spec fn round(l: LoopView) -> (LoopView, RequestView) {
    let message = MessageView {
        summary: rendered(l.message.summary_template, l.battery.percentage),
        body: rendered(l.message.body_template, l.battery.percentage),
        ..l.message
    };
    let with = LoopView { message, ..l };
    if alerts(l.battery.percentage, l.battery.state, l.notifier.threshold) {
        going_on(with, notifying(l.notifier, message).0, notifying(l.notifier, message).1)
    } else {
        going_on(with, removing(l.notifier).0, removing(l.notifier).1)
    }
}

/// The loop after it has ended.
pub open spec fn stopped(l: LoopView) -> LoopView {
    LoopView { stage: Stage::Stopped, awaits: None, ..l }
}

/// What the end of the wait leads to.
///
/// A value on the channel asks the process to stop: what is shown is taken
/// back, and then the process exits. A wait that timed out is followed by a
/// look at the battery. A channel without a sender is an error.
pub open spec fn waited(l: LoopView, signal: Signal) -> (LoopView, Result<RequestView, error::Error>) {
    match signal {
        Signal::Cancelled => (
            leaving(l, removing(l.notifier).0, removing(l.notifier).1).0,
            Ok(leaving(l, removing(l.notifier).0, removing(l.notifier).1).1),
        ),
        Signal::TimedOut => (
            LoopView { stage: Stage::Refreshing, awaits: Some(Kind::Refreshed), ..l },
            Ok(RequestView::Refresh),
        ),
        Signal::Disconnected => (
            stopped(l),
            Err(error::Error::System(error::System::RecvTimeout(error::RecvTimeout::Disconnected))),
        ),
    }
}

/// One step of the loop: the loop after `answer`, and the next request with
/// the warnings, or the error that ends the loop.
///
/// A loop that has ended stays so and asks to exit. An answer that does not
/// fit the request that is out ends the loop with an error. An answer to a
/// notifier's request goes to the notifiers; when they ask for no more, the
/// wait follows, or the exit in the course of the shutdown. A battery that
/// could not be read ends the loop with an error; one that was read starts
/// the next round.
pub open spec fn stepped(l: LoopView, answer: Answer) -> (
    LoopView,
    Result<(RequestView, Seq<Seq<char>>), error::Error>,
) {
    if l.stage == Stage::Stopped {
        (l, Ok((RequestView::Exit, Seq::empty())))
    } else if l.awaits != Some(kind(answer)) {
        (stopped(l), Err(error::Error::System(error::System::Unexpected)))
    } else {
        match (l.stage, answer) {
            (Stage::Waiting, Answer::Waited(signal)) => (
                waited(l, signal).0,
                match waited(l, signal).1 {
                    Ok(request) => Ok((request, Seq::empty())),
                    Err(e) => Err(e),
                },
            ),
            (Stage::Refreshing, Answer::Refreshed(Ok(reading))) => {
                let battery = BatteryView {
                    percentage: reading.charge,
                    state: state_of(reading.status),
                    ..l.battery
                };
                (
                    round(LoopView { battery, ..l }).0,
                    Ok((round(LoopView { battery, ..l }).1, Seq::empty())),
                )
            },
            (Stage::Refreshing, Answer::Refreshed(Err(reason))) => (
                stopped(l),
                Err(error::Error::Battery(error::Battery::Routine(reason))),
            ),
            (Stage::Notifying, _) => {
                let next = resuming(l.notifier, answer, l.message);
                (going_on(l, next.0, next.1).0, Ok((going_on(l, next.0, next.1).1, next.2)))
            },
            (Stage::ShuttingDown, _) => {
                let next = resuming(l.notifier, answer, l.message);
                (leaving(l, next.0, next.1).0, Ok((leaving(l, next.0, next.1).1, next.2)))
            },
            _ => (stopped(l), Err(error::Error::System(error::System::Unexpected))),
        }
    }
}

/// Whether the parts of the loop fit together. While the loop waits or
/// reads the battery the notifiers are at rest; while a notifier's request
/// is out the notifiers are in order, and in the course of the shutdown
/// that request is one that takes back; a loop that has ended awaits nothing.
pub open spec fn consistent(l: LoopView) -> bool {
    match l.stage {
        Stage::Waiting => l.awaits == Some(Kind::Waited) && at_rest(l.notifier),
        Stage::Refreshing => l.awaits == Some(Kind::Refreshed) && at_rest(l.notifier),
        Stage::Notifying => l.awaits is Some && in_order(l.notifier) && l.notifier.turn
            != Turn::Idle,
        Stage::ShuttingDown => l.awaits is Some && in_order(l.notifier) && l.notifier.turn
            == Turn::Desktop(Operation::Remove),
        Stage::Stopped => l.awaits is None,
    }
}

/// A loop that starts with notifiers at rest is consistent, and every step
/// keeps it so.
pub proof fn lemma_consistent(l: LoopView, answer: Answer)
    ensures
        at_rest(l.notifier) ==> consistent(round(l).0),
        consistent(l) ==> consistent(stepped(l, answer).0),
{
    lemma_in_order(l.notifier, l.message, answer);
    let message = MessageView {
        summary: rendered(l.message.summary_template, l.battery.percentage),
        body: rendered(l.message.body_template, l.battery.percentage),
        ..l.message
    };
    lemma_in_order(l.notifier, message, answer);
    match answer {
        Answer::Refreshed(Ok(reading)) => {
            let battery = BatteryView {
                percentage: reading.charge,
                state: state_of(reading.status),
                ..l.battery
            };
            let seen = LoopView { battery, ..l };
            let renewed = MessageView {
                summary: rendered(l.message.summary_template, battery.percentage),
                body: rendered(l.message.body_template, battery.percentage),
                ..l.message
            };
            lemma_in_order(seen.notifier, renewed, answer);
        },
        _ => {},
    }
}

/// Whether a step asks for `request`.
pub open spec fn asks(step: Result<(RequestView, Seq<Seq<char>>), error::Error>, request: RequestView) -> bool {
    step matches Ok((asked, _)) && asked == request
}

/// The user is alerted on one level only.
pub proof fn lemma_alerts(percentage: u8, state: State, threshold: u8)
    ensures
        alerts(percentage, state, threshold) <==> level_of(percentage, state, threshold)
            == Level::AboveThresholdCharging,
        alerts(percentage, state, threshold) <==> (percentage >= threshold && state
            == State::Charging),
{
}

/// A round shows the alert where the user is to be alerted, and takes it
/// back where not. It asks for no new alert and for no ping unless the
/// charge has reached the threshold and the battery is charging; then it
/// asks for the alert every time, new or renewed. Otherwise it asks to close
/// the alert that is shown, and waits at once where none is.
pub proof fn lemma_round_alerts(l: LoopView)
    ensures
        (round(l).1 is Show || round(l).1 is Update || round(l).1 is Execute) ==> alerts(
            l.battery.percentage,
            l.battery.state,
            l.notifier.threshold,
        ),
        round(l).1 is Close ==> !alerts(l.battery.percentage, l.battery.state, l.notifier.threshold),
        round(l).1 is Show ==> l.notifier.desktop == Some(None::<u32>),
        alerts(l.battery.percentage, l.battery.state, l.notifier.threshold)
            && l.notifier.desktop is Some ==> round(l).1 is Show || round(l).1 is Update,
        alerts(l.battery.percentage, l.battery.state, l.notifier.threshold)
            && l.notifier.desktop is None && l.notifier.kde_connect is Some ==> round(l).1
            is Execute,
        !alerts(l.battery.percentage, l.battery.state, l.notifier.threshold) ==> (
        l.notifier.desktop matches Some(Some(id)) ==> round(l).1 == (RequestView::Close { id })),
        !alerts(l.battery.percentage, l.battery.state, l.notifier.threshold) && !(
        l.notifier.desktop matches Some(Some(_))) ==> round(l).1 == (RequestView::Wait {
            secs: l.refresh_secs,
        }),
{
}

/// When the process is asked to stop while an alert is shown, the alert is
/// closed once and the process exits: the loop asks to close it, and once
/// that is answered it asks to exit, has ended, and asks nothing else of
/// any platform ever after.
pub proof fn lemma_shutdown(l: LoopView, id: u32, later: Answer)
    requires
        consistent(l),
        l.stage == Stage::Waiting,
        l.notifier.desktop == Some(Some(id)),
    ensures
        ({
            let cancelled = stepped(l, Answer::Waited(Signal::Cancelled));
            let closed = stepped(cancelled.0, Answer::Closed);
            let after = stepped(closed.0, later);
            &&& asks(cancelled.1, RequestView::Close { id })
            &&& cancelled.0.stage == Stage::ShuttingDown
            &&& cancelled.0.notifier.desktop == Some(None::<u32>)
            &&& asks(closed.1, RequestView::Exit)
            &&& closed.0.stage == Stage::Stopped
            &&& asks(after.1, RequestView::Exit)
            &&& after.0 == closed.0
        }),
{
}

/// When the process is asked to stop, what is shown is taken back once and
/// nothing else is done: whatever the loop holds while it waits, the
/// notifiers are as after one taking back, the battery is not looked at and
/// stays as it was, and the loop asks to close the alert that is shown, or
/// to exit where none is. Once the closing is answered it asks to exit.
pub proof fn lemma_cancelled(l: LoopView)
    requires
        consistent(l),
        l.stage == Stage::Waiting,
    ensures
        ({
            let cancelled = stepped(l, Answer::Waited(Signal::Cancelled));
            let closed = stepped(cancelled.0, Answer::Closed);
            &&& cancelled.0.notifier == removing(l.notifier).0
            &&& cancelled.0.battery == l.battery
            &&& cancelled.0.message == l.message
            &&& cancelled.1 matches Ok((request, warnings)) && warnings == Seq::<Seq<char>>::empty()
                && match removing(l.notifier).1 {
                Some(asked) => request == asked && asked is Close && cancelled.0.stage
                    == Stage::ShuttingDown,
                None => request == RequestView::Exit && cancelled.0.stage == Stage::Stopped,
            }
            &&& removing(l.notifier).1 is Some ==> asks(closed.1, RequestView::Exit)
                && closed.0.stage == Stage::Stopped && closed.0.notifier.desktop
                == cancelled.0.notifier.desktop && closed.0.battery == l.battery
        }),
{
}

/// When the process is asked to stop while no alert is shown, it exits at once.
pub proof fn lemma_shutdown_without_alert(l: LoopView)
    requires
        consistent(l),
        l.stage == Stage::Waiting,
        l.notifier.desktop is None || l.notifier.desktop == Some(None::<u32>),
    ensures
        asks(stepped(l, Answer::Waited(Signal::Cancelled)).1, RequestView::Exit),
        stepped(l, Answer::Waited(Signal::Cancelled)).0.stage == Stage::Stopped,
{
}

/// From the moment the process is asked to stop, nothing is shown any more:
/// in the course of the shutdown no step asks for an alert, for its renewal
/// or for a ping.
pub proof fn lemma_no_notify_after_cancel(l: LoopView, answer: Answer)
    requires
        consistent(l),
        l.stage == Stage::ShuttingDown || l.stage == Stage::Stopped || (l.stage == Stage::Waiting
            && answer == Answer::Waited(Signal::Cancelled)),
    ensures
        stepped(l, answer).1 matches Ok((asked, _)) ==> !(asked is Show || asked is Update
            || asked is Execute || asked is Refresh || asked is Wait),
        stepped(l, answer).0.stage == Stage::ShuttingDown || stepped(l, answer).0.stage
            == Stage::Stopped,
{
}

/// A battery that cannot be read ends the loop: the step fails with the
/// battery's error, the loop has ended, and it asks nothing of any platform
/// ever after, only to exit.
pub proof fn lemma_refresh_failure(l: LoopView, reason: String, later: Answer)
    requires
        consistent(l),
        l.stage == Stage::Refreshing,
    ensures
        ({
            let failed = stepped(l, Answer::Refreshed(Err(reason)));
            let after = stepped(failed.0, later);
            &&& failed.1 == Err::<(RequestView, Seq<Seq<char>>), error::Error>(
                error::Error::Battery(error::Battery::Routine(reason)),
            )
            &&& failed.0.stage == Stage::Stopped
            &&& failed.0.notifier == l.notifier
            &&& asks(after.1, RequestView::Exit)
            &&& after.0 == failed.0
        }),
{
}

/// A channel without a sender ends the loop with an error of its own,
/// which is not the way in which the process is asked to stop.
pub proof fn lemma_disconnected(l: LoopView)
    requires
        consistent(l),
        l.stage == Stage::Waiting,
    ensures
        stepped(l, Answer::Waited(Signal::Disconnected)).1 == Err::<
            (RequestView, Seq<Seq<char>>),
            error::Error,
        >(error::Error::System(error::System::RecvTimeout(error::RecvTimeout::Disconnected))),
        stepped(l, Answer::Waited(Signal::Disconnected)).0.stage == Stage::Stopped,
        stepped(l, Answer::Waited(Signal::Cancelled)).1 is Ok,
{
}

/// A loop that has ended stays so: every step asks to exit and changes nothing.
pub proof fn lemma_stopped(l: LoopView, answer: Answer)
    requires
        l.stage == Stage::Stopped,
    ensures
        stepped(l, answer).0 == l,
        asks(stepped(l, answer).1, RequestView::Exit),
{
}

/// What goes wrong on a platform never ends the loop: a step that takes a
/// notifier's answer in turn gives the next request.
pub proof fn lemma_platform_failure_goes_on(l: LoopView, answer: Answer)
    requires
        l.stage == Stage::Notifying || l.stage == Stage::ShuttingDown,
        l.awaits == Some(kind(answer)),
    ensures
        stepped(l, answer).1 is Ok,
{
}

/// The loop never asks anything of a platform that is switched off; and a
/// new alert is only asked for while the desktop remembers none.
pub proof fn lemma_switched_off(l: LoopView, answer: Answer)
    ensures
        l.notifier.desktop is None ==> stepped(l, answer).0.notifier.desktop is None && !(stepped(
            l,
            answer,
        ).1 matches Ok((asked, _)) && (asked is Show || asked is Update || asked is Close)),
        l.notifier.kde_connect is None ==> stepped(l, answer).0.notifier.kde_connect is None && !(
        stepped(l, answer).1 matches Ok((asked, _)) && asked is Execute),
        stepped(l, answer).1 matches Ok((RequestView::Show(_), _)) ==> l.notifier.desktop == Some(
            None::<u32>,
        ),
{
}

/// Where the charge of `battery` stands against `threshold`. The user is
/// alerted on one level only: at or above the threshold, and charging.
pub fn evaluate(battery: &Battery, threshold: u8) -> (level: Level)
    ensures
        level == level_of(battery@.percentage, battery@.state, threshold),
        level == Level::AboveThresholdCharging <==> alerts(
            battery@.percentage,
            battery@.state,
            threshold,
        ),
{
    if battery.percentage < threshold {
        Level::BelowThreshold
    } else {
        match battery.state {
            State::Charging => Level::AboveThresholdCharging,
            _ => Level::AboveThresholdNotCharging,
        }
    }
}

/// The kind of answer that fits `request`.
fn fit(request: &Request) -> (kind: Option<Kind>)
    ensures
        kind == fitting(request@),
{
    match request {
        Request::Show(_) => Some(Kind::Shown),
        Request::Update { .. } => Some(Kind::Updated),
        Request::Close { .. } => Some(Kind::Closed),
        Request::Execute { .. } => Some(Kind::Executed),
        Request::Wait { .. } => Some(Kind::Waited),
        Request::Refresh => Some(Kind::Refreshed),
        Request::Exit => None,
    }
}

/// The kind of `answer`.
fn kind_of(answer: &Answer) -> (k: Kind)
    ensures
        k == kind(*answer),
{
    match answer {
        Answer::Shown(_) => Kind::Shown,
        Answer::Updated(_) => Kind::Updated,
        Answer::Closed => Kind::Closed,
        Answer::Executed(_) => Kind::Executed,
        Answer::Waited(_) => Kind::Waited,
        Answer::Refreshed(_) => Kind::Refreshed,
    }
}

/// No warnings.
fn silent() -> (warnings: Vec<String>)
    ensures
        warnings.deep_view() == Seq::<Seq<char>>::empty(),
{
    let warnings: Vec<String> = Vec::new();
    assert(warnings.deep_view() =~= Seq::<Seq<char>>::empty());
    warnings
}

/// Starts the loop: its first round, and the first request to the platform.
pub fn loop_(battery: Battery, message: Message, notifier: Notifier, refresh_secs: u64) -> (r: (
    Loop,
    Step,
))
    ensures
        r.0@ == round(
            LoopView {
                battery: battery@,
                message: message@,
                notifier: notifier@,
                refresh_secs,
                stage: Stage::Notifying,
                awaits: None,
            },
        ).0,
        r.1.request@ == round(
            LoopView {
                battery: battery@,
                message: message@,
                notifier: notifier@,
                refresh_secs,
                stage: Stage::Notifying,
                awaits: None,
            },
        ).1,
        r.1.warnings.deep_view() == Seq::<Seq<char>>::empty(),
        at_rest(notifier@) ==> consistent(r.0@),
{
    proof {
        lemma_consistent(
            LoopView {
                battery: battery@,
                message: message@,
                notifier: notifier@,
                refresh_secs,
                stage: Stage::Notifying,
                awaits: None,
            },
            Answer::Closed,
        );
    }
    let mut event_loop = Loop {
        battery,
        message,
        notifier,
        refresh_secs,
        stage: Stage::Notifying,
        awaits: None,
    };
    let request = event_loop.round();
    (event_loop, Step { request, warnings: silent() })
}

impl Loop {
    /// What the loop is doing.
    pub fn stage(&self) -> (stage: Stage)
        ensures
            stage == self@.stage,
    {
        self.stage
    }

    /// The kind of answer that fits the request that is out.
    pub fn awaits(&self) -> (kind: Option<Kind>)
        ensures
            kind == self@.awaits,
    {
        self.awaits
    }

    /// The battery as it was last seen.
    pub fn battery(&self) -> (battery: &Battery)
        ensures
            battery@ == self@.battery,
    {
        &self.battery
    }

    /// The message as it was last made.
    pub fn message(&self) -> (message: &Message)
        ensures
            message@ == self@.message,
    {
        &self.message
    }

    /// The notifiers.
    pub fn notifier(&self) -> (notifier: &Notifier)
        ensures
            notifier@ == self@.notifier,
    {
        &self.notifier
    }

    /// Takes the platform's answer to the last request, and returns the next
    /// request with what to warn of first, or the error that ends the loop.
    pub fn step(&mut self, answer: Answer) -> (r: Result<Step, error::Error>)
        ensures
            final(self)@ == stepped(old(self)@, answer).0,
            match stepped(old(self)@, answer).1 {
                Ok((request, warnings)) => r matches Ok(step) && step.request@ == request
                    && step.warnings.deep_view() == warnings,
                Err(e) => r == Err::<Step, error::Error>(e),
            },
            consistent(old(self)@) ==> consistent(final(self)@),
    {
        proof {
            lemma_consistent(self@, answer);
        }
        match self.stage {
            Stage::Stopped => {
                return Ok(Step { request: Request::Exit, warnings: silent() });
            },
            _ => {},
        }
        let fits = match self.awaits {
            Some(awaited) => awaited == kind_of(&answer),
            None => false,
        };
        if !fits {
            self.stop();
            return Err(error::Error::System(error::System::Unexpected));
        }
        match (self.stage, answer) {
            (Stage::Waiting, Answer::Waited(signal)) => {
                let request = self.wait_and_refresh(signal)?;
                Ok(Step { request, warnings: silent() })
            },
            (Stage::Refreshing, Answer::Refreshed(outcome)) => {
                match self.battery.refresh(outcome) {
                    Ok(()) => {
                        let request = self.round();
                        Ok(Step { request, warnings: silent() })
                    },
                    Err(e) => {
                        self.stop();
                        Err(error::Error::Battery(e))
                    },
                }
            },
            (Stage::Notifying, answer) => {
                let (request, warnings) = self.notifier.resume(answer, &self.message);
                let request = self.go_on(request);
                Ok(Step { request, warnings })
            },
            (Stage::ShuttingDown, answer) => {
                let (request, warnings) = self.notifier.resume(answer, &self.message);
                let request = self.leave(request);
                Ok(Step { request, warnings })
            },
            _ => {
                self.stop();
                Err(error::Error::System(error::System::Unexpected))
            },
        }
    }

    /// Starts a round with the battery as it was last seen.
    fn round(&mut self) -> (request: Request)
        ensures
            final(self)@ == round(old(self)@).0,
            request@ == round(old(self)@).1,
    {
        self.message.update(&self.battery);
        let request = match evaluate(&self.battery, self.notifier.threshold()) {
            Level::AboveThresholdCharging => self.notifier.notify(&self.message),
            _ => self.notifier.remove(),
        };
        self.go_on(request)
    }

    /// Takes how the wait on the shutdown channel ended.
    fn wait_and_refresh(&mut self, signal: Signal) -> (r: Result<Request, error::Error>)
        ensures
            final(self)@ == waited(old(self)@, signal).0,
            match waited(old(self)@, signal).1 {
                Ok(request) => r matches Ok(next) && next@ == request,
                Err(e) => r == Err::<Request, error::Error>(e),
            },
    {
        match signal {
            Signal::Cancelled => Ok(self.handle_shutdown()),
            Signal::TimedOut => {
                self.stage = Stage::Refreshing;
                self.awaits = Some(Kind::Refreshed);
                Ok(Request::Refresh)
            },
            Signal::Disconnected => {
                self.stop();
                Err(
                    error::Error::System(
                        error::System::RecvTimeout(error::RecvTimeout::Disconnected),
                    ),
                )
            },
        }
    }

    /// Starts the shutdown: what is shown is taken back, and then the process exits.
    fn handle_shutdown(&mut self) -> (request: Request)
        ensures
            final(self)@ == leaving(
                old(self)@,
                removing(old(self)@.notifier).0,
                removing(old(self)@.notifier).1,
            ).0,
            request@ == leaving(
                old(self)@,
                removing(old(self)@.notifier).0,
                removing(old(self)@.notifier).1,
            ).1,
    {
        let request = self.notifier.remove();
        self.leave(request)
    }

    /// Goes on after the notifiers had their turn, in the course of a round.
    fn go_on(&mut self, request: Option<Request>) -> (next: Request)
        ensures
            final(self)@ == going_on(old(self)@, old(self)@.notifier, asked(request)).0,
            next@ == going_on(old(self)@, old(self)@.notifier, asked(request)).1,
    {
        match request {
            Some(request) => {
                self.stage = Stage::Notifying;
                self.awaits = fit(&request);
                request
            },
            None => {
                self.stage = Stage::Waiting;
                self.awaits = Some(Kind::Waited);
                Request::Wait { secs: self.refresh_secs }
            },
        }
    }

    /// Goes on after the notifiers had their turn, in the course of the shutdown.
    fn leave(&mut self, request: Option<Request>) -> (next: Request)
        ensures
            final(self)@ == leaving(old(self)@, old(self)@.notifier, asked(request)).0,
            next@ == leaving(old(self)@, old(self)@.notifier, asked(request)).1,
    {
        match request {
            Some(request) => {
                self.stage = Stage::ShuttingDown;
                self.awaits = fit(&request);
                request
            },
            None => {
                self.stop();
                Request::Exit
            },
        }
    }

    /// Ends the loop.
    fn stop(&mut self)
        ensures
            final(self)@ == stopped(old(self)@),
    {
        self.stage = Stage::Stopped;
        self.awaits = None;
    }
}

} // verus!

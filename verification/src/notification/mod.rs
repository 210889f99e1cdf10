//! Alerts on every platform that is switched on.

pub use desktop::Notifier as DesktopNotifier;
pub use kde_connect::Notifier as KDEConnectNotifier;
pub use message::Message;

use crate::common::{warning_text, Describe};
use crate::error;
use crate::error::Failure;
use crate::platform::{Answer, Output, Request, RequestView};
use desktop::{closes, refusal, remembers, shows};
use kde_connect::{advanced, checked, kept, text_of, PhaseView};
use message::MessageView;
use operation::Operation;
use vstd::prelude::*;
use vstd::string::*;

pub mod desktop;
pub mod kde_connect;
pub mod message;
pub mod operation;

verus! {

/// A request, if there is one, as the contracts see it.
pub open spec fn asked(request: Option<Request>) -> Option<RequestView> {
    match request {
        Some(request) => Some(request@),
        None => None,
    }
}

/// How a notifier goes on, as the contracts see it: with the next request, if
/// there is one, or with what went wrong.
pub open spec fn went<E: View>(outcome: Result<Option<Request>, E>) -> Result<
    Option<RequestView>,
    E::V,
> {
    match outcome {
        Ok(request) => Ok(asked(request)),
        Err(e) => Err(e@),
    }
}

/// A platform on which alerts are shown.
///
/// A notifier shows nothing itself. `notify` and `remove` return what to ask
/// of the platform first, if anything; `resume` takes the platform's answer
/// and returns what to ask next, until nothing is left to ask or the
/// platform has failed.
pub trait PlatformNotifier: Sized {
    type Error: Failure;

    /// Whether `notify` with `message` makes `after` of this notifier.
    spec fn notified(&self, message: MessageView, after: &Self) -> bool;

    /// What `notify` with `message` asks for.
    spec fn notifies(&self, message: MessageView) -> Option<RequestView>;

    /// Whether `remove` makes `after` of this notifier.
    spec fn removed(&self, after: &Self) -> bool;

    /// What `remove` asks for.
    spec fn removes(&self) -> Option<RequestView>;

    /// Whether `resume` with `answer` makes `after` of this notifier.
    spec fn resumed(&self, answer: Answer, after: &Self) -> bool;

    /// How `resume` with `answer` goes on, with the next request or with
    /// what went wrong, and what it warns of.
    spec fn resumes(&self, answer: Answer) -> (
        Result<Option<RequestView>, <Self::Error as View>::V>,
        Seq<Seq<char>>,
    );

    /// Starts to show `message`.
    fn notify(&mut self, message: &Message) -> (request: Option<Request>)
        ensures
            old(self).notified(message@, final(self)),
            asked(request) == old(self).notifies(message@),
    ;

    /// Starts to take back what is shown.
    fn remove(&mut self) -> (request: Option<Request>)
        ensures
            old(self).removed(final(self)),
            asked(request) == old(self).removes(),
    ;

    /// Goes on with the platform's answer to the last request.
    fn resume(&mut self, answer: Answer) -> (r: (Result<Option<Request>, Self::Error>, Vec<String>))
        ensures
            old(self).resumed(answer, final(self)),
            (went(r.0), r.1.deep_view()) == old(self).resumes(answer),
    ;
}

/// Which notifier's request is out, and for what.
#[derive(Debug, Clone, Copy, PartialEq, Eq, Structural)]
pub enum Turn {
    /// No request is out.
    Idle,
    Desktop(Operation),
    KDEConnect(Operation),
}

/// The notifiers of the platforms that are switched on: the desktop comes
/// first, the remote devices second.
///
/// What goes wrong on a platform is not handed on. It becomes a warning, and
/// the next platform has its turn.
#[derive(Debug)]
pub struct Notifier {
    pub threshold: u8,
    desktop: Option<DesktopNotifier>,
    kde_connect: Option<KDEConnectNotifier>,
    turn: Turn,
}

/// The notifiers as the contracts see them.
pub struct NotifierView {
    pub threshold: u8,
    /// The alert that the desktop notifier remembers, where the desktop is switched on.
    pub desktop: Option<Option<u32>>,
    /// The notifier for remote devices, where they are switched on.
    pub kde_connect: Option<kde_connect::NotifierView>,
    pub turn: Turn,
}

impl View for Notifier {
    type V = NotifierView;

    closed spec fn view(&self) -> NotifierView {
        NotifierView {
            threshold: self.threshold,
            desktop: match self.desktop {
                Some(notifier) => Some(notifier.handle()),
                None => None,
            },
            kde_connect: match self.kde_connect {
                Some(notifier) => Some(notifier@),
                None => None,
            },
            turn: self.turn,
        }
    }
}

/// The warning that stands for what went wrong on a platform.
pub open spec fn suppressed(reason: Seq<char>) -> Seq<char> {
    warning_text("notification"@, reason)
}

/// How showing `message` goes on with the remote devices: they are asked
/// which of them can be reached, where they are switched on.
pub open spec fn remote_notifying(notifiers: NotifierView, message: MessageView) -> (
    NotifierView,
    Option<RequestView>,
) {
    match notifiers.kde_connect {
        Some(remote) => (
            NotifierView {
                kde_connect: Some(
                    kde_connect::NotifierView {
                        phase: PhaseView::Listing { message: text_of(message) },
                        ..remote
                    },
                ),
                turn: Turn::KDEConnect(Operation::Notify),
                ..notifiers
            },
            Some(RequestView::Execute { args: crate::device::kde_connect::list::available_args() }),
        ),
        None => (NotifierView { turn: Turn::Idle, ..notifiers }, None),
    }
}

/// How showing `message` starts: with the desktop where it is switched on,
/// else with the remote devices.
pub open spec fn notifying(notifiers: NotifierView, message: MessageView) -> (
    NotifierView,
    Option<RequestView>,
) {
    match notifiers.desktop {
        Some(handle) => (
            NotifierView { turn: Turn::Desktop(Operation::Notify), ..notifiers },
            Some(shows(handle, message)),
        ),
        None => remote_notifying(notifiers, message),
    }
}

/// How taking back starts, and ends: the desktop forgets its alert and is
/// asked to close it, if it remembers one. Nothing is asked of the remote
/// devices, from which no ping can be taken back.
pub open spec fn removing(notifiers: NotifierView) -> (NotifierView, Option<RequestView>) {
    match notifiers.desktop {
        Some(handle) => (
            NotifierView {
                desktop: Some(None),
                turn: if handle is Some {
                    Turn::Desktop(Operation::Remove)
                } else {
                    Turn::Idle
                },
                ..notifiers
            },
            closes(handle),
        ),
        None => (NotifierView { turn: Turn::Idle, ..notifiers }, None),
    }
}

/// How the notifiers go on with `answer`, the platform's answer to the last
/// request: the notifiers after it, the next request if there is one, and
/// the warnings.
///
/// The answer goes to the notifier whose turn it is. When that notifier has
/// no more to ask, or has failed, the next one has its turn.
pub open spec fn resuming(notifiers: NotifierView, answer: Answer, message: MessageView) -> (
    NotifierView,
    Option<RequestView>,
    Seq<Seq<char>>,
) {
    match notifiers.turn {
        Turn::Idle => (notifiers, None, Seq::empty()),
        Turn::Desktop(op) => {
            let after = NotifierView {
                desktop: match notifiers.desktop {
                    Some(handle) => Some(remembers(handle, answer)),
                    None => None,
                },
                ..notifiers
            };
            let warnings = match (notifiers.desktop, refusal(answer)) {
                (Some(_), Some(reason)) => seq![suppressed(error::Notification::written(reason))],
                _ => Seq::empty(),
            };
            match op {
                Operation::Notify => (
                    remote_notifying(after, message).0,
                    remote_notifying(after, message).1,
                    warnings,
                ),
                Operation::Remove => (NotifierView { turn: Turn::Idle, ..after }, None, warnings),
            }
        },
        Turn::KDEConnect(_) => match notifiers.kde_connect {
            None => (NotifierView { turn: Turn::Idle, ..notifiers }, None, Seq::empty()),
            Some(remote) => {
                let step = advanced(remote.device_names, remote.phase, answer);
                let after = NotifierView {
                    kde_connect: Some(kde_connect::NotifierView { phase: step.0, ..remote }),
                    ..notifiers
                };
                match step.1 {
                    Ok(Some(request)) => (after, Some(request), step.2),
                    Ok(None) => (NotifierView { turn: Turn::Idle, ..after }, None, step.2),
                    Err(reason) => (
                        NotifierView { turn: Turn::Idle, ..after },
                        None,
                        step.2.push(suppressed(error::KDEConnect::written(reason))),
                    ),
                }
            },
        },
    }
}

/// The notifiers that are made for a threshold: the desktop's unless it is
/// switched off, and that for remote devices where names are given for it,
/// together with the answers to the listing of all known devices and to
/// that of the devices that can be reached.
pub open spec fn made(
    threshold: u8,
    kde_connect: Option<(Vec<String>, Result<Output, String>, Result<Output, String>)>,
    disable_desktop: bool,
) -> NotifierView {
    NotifierView {
        threshold,
        desktop: if disable_desktop {
            None
        } else {
            Some(None)
        },
        kde_connect: match kde_connect {
            Some((names, _, _)) => Some(
                kde_connect::NotifierView {
                    device_names: kept(names.deep_view()),
                    phase: PhaseView::Idle,
                },
            ),
            None => None,
        },
        turn: Turn::Idle,
    }
}

/// Whether the notifiers are at rest: no request is out, and no message is on its way.
pub open spec fn at_rest(notifiers: NotifierView) -> bool {
    &&& notifiers.turn == Turn::Idle
    &&& notifiers.kde_connect matches Some(remote) ==> remote.phase == PhaseView::Idle
}

/// Whether the notifiers' parts fit together: the notifier whose request is
/// out is switched on, and a message is on its way to the remote devices
/// only while it is their turn to show it.
pub open spec fn in_order(notifiers: NotifierView) -> bool {
    &&& notifiers.turn is Desktop ==> notifiers.desktop is Some
    &&& notifiers.turn is KDEConnect ==> notifiers.kde_connect is Some
    &&& notifiers.turn != Turn::KDEConnect(Operation::Notify) ==> (
    notifiers.kde_connect matches Some(remote) ==> remote.phase == PhaseView::Idle)
}

/// Notifiers at rest are in order, and whatever is started on them or
/// answered to them leaves them in order; once they ask for no more they are at rest.
pub proof fn lemma_in_order(notifiers: NotifierView, message: MessageView, answer: Answer)
    ensures
        at_rest(notifiers) ==> in_order(notifiers),
        at_rest(notifiers) ==> in_order(notifying(notifiers, message).0) && in_order(
            removing(notifiers).0,
        ),
        in_order(notifiers) ==> in_order(resuming(notifiers, answer, message).0),
        at_rest(notifiers) && notifying(notifiers, message).1 is None ==> at_rest(
            notifying(notifiers, message).0,
        ),
        at_rest(notifiers) && removing(notifiers).1 is None ==> at_rest(removing(notifiers).0),
        in_order(notifiers) && resuming(notifiers, answer, message).1 is None ==> at_rest(
            resuming(notifiers, answer, message).0,
        ),
        at_rest(notifiers) ==> !(removing(notifiers).0.turn is KDEConnect) && !(removing(
            notifiers,
        ).0.turn == Turn::Desktop(Operation::Notify)),
{
}

/// Whether a request is made of the desktop.
pub open spec fn of_desktop(request: Option<RequestView>) -> bool {
    request matches Some(asks) && (asks is Show || asks is Update || asks is Close)
}

/// Whether a request is made of the remote devices.
pub open spec fn of_remote(request: Option<RequestView>) -> bool {
    request matches Some(asks) && asks is Execute
}

/// A platform that is switched off stays so and is never asked for
/// anything, whatever is shown, taken back or answered.
pub proof fn lemma_switched_off(notifiers: NotifierView, message: MessageView, answer: Answer)
    ensures
        notifiers.desktop is None ==> {
            &&& !of_desktop(notifying(notifiers, message).1)
            &&& !of_desktop(removing(notifiers).1)
            &&& !of_desktop(resuming(notifiers, answer, message).1)
            &&& notifying(notifiers, message).0.desktop is None
            &&& removing(notifiers).0.desktop is None
            &&& resuming(notifiers, answer, message).0.desktop is None
        },
        notifiers.kde_connect is None ==> {
            &&& !of_remote(notifying(notifiers, message).1)
            &&& !of_remote(removing(notifiers).1)
            &&& !of_remote(resuming(notifiers, answer, message).1)
            &&& notifying(notifiers, message).0.kde_connect is None
            &&& removing(notifiers).0.kde_connect is None
            &&& resuming(notifiers, answer, message).0.kde_connect is None
        },
{
}

/// The notifiers only ask for a new alert while the desktop remembers none,
/// and only ask to close or to renew the alert that it remembers.
pub proof fn lemma_one_alert(notifiers: NotifierView, message: MessageView, answer: Answer)
    ensures
        notifying(notifiers, message).1 matches Some(RequestView::Show(_)) ==> notifiers.desktop
            == Some(None::<u32>),
        notifying(notifiers, message).1 matches Some(RequestView::Update { id, .. })
            ==> notifiers.desktop == Some(Some(id)),
        removing(notifiers).1 matches Some(RequestView::Close { id }) ==> notifiers.desktop == Some(
            Some(id),
        ),
        !(removing(notifiers).1 matches Some(RequestView::Show(_))),
        !(resuming(notifiers, answer, message).1 matches Some(RequestView::Show(_))),
        removing(notifiers).0.desktop is Some ==> removing(notifiers).0.desktop == Some(
            None::<u32>,
        ),
{
}

/// Taking back where nothing is shown asks for nothing: the notifiers stay
/// as they are, and no request is out.
pub proof fn lemma_remove_without_alert(notifiers: NotifierView)
    requires
        notifiers.desktop is None || notifiers.desktop == Some(None::<u32>),
    ensures
        removing(notifiers).1 is None,
        removing(notifiers).0 == (NotifierView { turn: Turn::Idle, ..notifiers }),
{
}

/// Taking back twice asks to close once: after the first time nothing is
/// left to take back.
pub proof fn lemma_remove_twice(notifiers: NotifierView)
    ensures
        removing(removing(notifiers).0).1 is None,
{
}

impl Notifier {
    /// The notifiers of the platforms that are switched on.
    ///
    /// The desktop is switched on unless `disable_desktop` says otherwise. The
    /// remote devices are switched on where `kde_connect` gives their names
    /// (no name stands for all of them), the answer to the listing of all
    /// known devices and that to the listing of the devices that can be
    /// reached now. The answers have to show that the command runs, that
    /// each line names a device, and that each name is that of a device
    /// which is known at all.
    pub fn new(
        threshold: u8,
        kde_connect: Option<(Vec<String>, Result<Output, String>, Result<Output, String>)>,
        disable_desktop: bool,
    ) -> (r: (Result<Self, error::Error>, Vec<String>))
        ensures
            match kde_connect {
                None => r.0 matches Ok(notifier) && notifier@ == made(
                    threshold,
                    kde_connect,
                    disable_desktop,
                ) && r.1.deep_view() == Seq::<Seq<char>>::empty(),
                Some((names, known, available)) => {
                    &&& r.1.deep_view() == checked(kept(names.deep_view()), known, available).1
                    &&& match checked(kept(names.deep_view()), known, available).0 {
                        Ok(_) => r.0 matches Ok(notifier) && notifier@ == made(
                            threshold,
                            kde_connect,
                            disable_desktop,
                        ),
                        Err(reason) => r.0 matches Err(error::Error::KDEConnect(e)) && e@
                            == reason,
                    }
                },
            },
    {
        let desktop = if disable_desktop {
            None
        } else {
            Some(DesktopNotifier::new())
        };
        match kde_connect {
            None => {
                let warnings: Vec<String> = Vec::new();
                assert(warnings.deep_view() =~= Seq::<Seq<char>>::empty());
                (Ok(Self { threshold, desktop, kde_connect: None, turn: Turn::Idle }), warnings)
            },
            Some((names, known, available)) => {
                let (remote, warnings) = KDEConnectNotifier::new(names, known, available);
                match remote {
                    Ok(remote) => (
                        Ok(Self { threshold, desktop, kde_connect: Some(remote), turn: Turn::Idle }),
                        warnings,
                    ),
                    Err(e) => (Err(error::Error::KDEConnect(e)), warnings),
                }
            },
        }
    }

    /// The charge from which on the user is alerted.
    pub fn threshold(&self) -> (threshold: u8)
        ensures
            threshold == self@.threshold,
    {
        self.threshold
    }

    /// Whether no request of a notifier is out.
    pub fn is_idle(&self) -> (idle: bool)
        ensures
            idle == (self@.turn == Turn::Idle),
    {
        match self.turn {
            Turn::Idle => true,
            _ => false,
        }
    }

    /// Starts to show `message` on every platform that is switched on: what
    /// to ask of the first of them.
    pub fn notify(&mut self, message: &Message) -> (request: Option<Request>)
        ensures
            final(self)@ == notifying(old(self)@, message@).0,
            asked(request) == notifying(old(self)@, message@).1,
    {
        match operation::notify(&mut self.desktop, message) {
            Some(request) => {
                self.turn = Turn::Desktop(Operation::Notify);
                Some(request)
            },
            None => self.notify_remote(message),
        }
    }

    /// Goes on to show `message` on the remote devices.
    fn notify_remote(&mut self, message: &Message) -> (request: Option<Request>)
        ensures
            final(self)@ == remote_notifying(old(self)@, message@).0,
            asked(request) == remote_notifying(old(self)@, message@).1,
    {
        let request = operation::notify(&mut self.kde_connect, message);
        self.turn = match request {
            Some(_) => Turn::KDEConnect(Operation::Notify),
            None => Turn::Idle,
        };
        request
    }

    /// Starts to take back what is shown on every platform that is switched
    /// on: what to ask of the first of them. Where nothing is shown, nothing
    /// is asked.
    pub fn remove(&mut self) -> (request: Option<Request>)
        ensures
            final(self)@ == removing(old(self)@).0,
            asked(request) == removing(old(self)@).1,
    {
        match operation::remove(&mut self.desktop) {
            Some(request) => {
                self.turn = Turn::Desktop(Operation::Remove);
                Some(request)
            },
            None => {
                let request = operation::remove(&mut self.kde_connect);
                self.turn = match request {
                    Some(_) => Turn::KDEConnect(Operation::Remove),
                    None => Turn::Idle,
                };
                request
            },
        }
    }

    /// Goes on with the platform's answer to the last request: what to ask
    /// next, if anything is left to ask, and what to warn of.
    pub fn resume(&mut self, answer: Answer, message: &Message) -> (r: (
        Option<Request>,
        Vec<String>,
    ))
        ensures
            final(self)@ == resuming(old(self)@, answer, message@).0,
            asked(r.0) == resuming(old(self)@, answer, message@).1,
            r.1.deep_view() == resuming(old(self)@, answer, message@).2,
    {
        match self.turn {
            Turn::Idle => {
                let warnings: Vec<String> = Vec::new();
                assert(warnings.deep_view() =~= Seq::<Seq<char>>::empty());
                (None, warnings)
            },
            Turn::Desktop(op) => {
                let (request, warnings) = operation::resume(&mut self.desktop, answer);
                match request {
                    Some(request) => (Some(request), warnings),
                    None => {
                        let request = match op {
                            Operation::Notify => self.notify_remote(message),
                            Operation::Remove => {
                                let request = operation::remove(&mut self.kde_connect);
                                self.turn = match request {
                                    Some(_) => Turn::KDEConnect(Operation::Remove),
                                    None => Turn::Idle,
                                };
                                request
                            },
                        };
                        (request, warnings)
                    },
                }
            },
            Turn::KDEConnect(_) => {
                let (request, warnings) = operation::resume(&mut self.kde_connect, answer);
                if request.is_none() {
                    self.turn = Turn::Idle;
                }
                (request, warnings)
            },
        }
    }
}

impl Describe for Notifier {
    open spec fn text(&self) -> Seq<char> {
        "Notifier: Desktop = "@ + (match self@.desktop {
            Some(handle) => desktop::notifier_text(handle),
            None => "None"@,
        }) + ", KDE Connect = "@ + (match self@.kde_connect {
            Some(remote) => kde_connect::notifier_text(remote.device_names),
            None => "None"@,
        })
    }

    fn describe(&self) -> (s: String) {
        let desktop = match &self.desktop {
            Some(notifier) => notifier.describe(),
            None => String::from_str("None"),
        };
        let kde_connect = match &self.kde_connect {
            Some(notifier) => notifier.describe(),
            None => String::from_str("None"),
        };
        String::from_str("Notifier: Desktop = ").concat(desktop.as_str()).concat(
            ", KDE Connect = ",
        ).concat(kde_connect.as_str())
    }
}

} // verus!

//! Pings to remote devices.

use crate::common::{distinct, format_string_set, joined, unique, Describe};
use crate::device::kde_connect::find::{found, left, lookup, missed};
use crate::device::kde_connect::map::listed;
use crate::device::kde_connect::{
    self, execute, find, list, ping_args, stderr_warning, KDEConnect, KDEConnectView,
};
use crate::error;
use crate::notification::message::MessageView;
use crate::notification::{Message, PlatformNotifier};
use crate::platform::{Answer, Output, Request, RequestView};
use crate::text::{lines, utf8_lossy};
use vstd::prelude::*;
use vstd::string::*;

verus! {

/// How far a notifier is with sending a message.
#[derive(Debug)]
pub enum Phase {
    /// Nothing is under way.
    Idle,
    /// The devices that can be reached were asked for.
    Listing { message: String },
    /// A device is being pinged; `targets` come after it.
    Pinging { message: String, targets: Vec<KDEConnect> },
}

/// The notifier for remote devices.
#[derive(Debug)]
pub struct Notifier {
    /// The names of the devices to ping; without names every device that can
    /// be reached is pinged.
    device_names: Option<Vec<String>>,
    phase: Phase,
}

/// A phase as the contracts see it.
pub enum PhaseView {
    Idle,
    Listing { message: Seq<char> },
    Pinging { message: Seq<char>, targets: Seq<KDEConnectView> },
}

/// A notifier as the contracts see it.
pub struct NotifierView {
    pub device_names: Option<Seq<Seq<char>>>,
    pub phase: PhaseView,
}

impl View for Phase {
    type V = PhaseView;

    open spec fn view(&self) -> PhaseView {
        match self {
            Phase::Idle => PhaseView::Idle,
            Phase::Listing { message } => PhaseView::Listing { message: message@ },
            Phase::Pinging { message, targets } => PhaseView::Pinging {
                message: message@,
                targets: targets.deep_view(),
            },
        }
    }
}

impl View for Notifier {
    type V = NotifierView;

    closed spec fn view(&self) -> NotifierView {
        NotifierView {
            device_names: match self.device_names {
                Some(names) => Some(names.deep_view()),
                None => None,
            },
            phase: self.phase@,
        }
    }
}

/// What is sent to a device for `message`: the summary, an empty line, the body.
pub open spec fn text_of(message: MessageView) -> Seq<char> {
    message.summary + "\n\n"@ + message.body
}

/// The names that a notifier keeps of `names`: none where none are given,
/// else each of them once.
pub open spec fn kept(names: Seq<Seq<char>>) -> Option<Seq<Seq<char>>> {
    if names.len() == 0 {
        None
    } else {
        Some(distinct(names))
    }
}

/// What a warning adds to the warnings.
pub open spec fn noted(warning: Option<Seq<char>>) -> Seq<Seq<char>> {
    match warning {
        Some(text) => seq![text],
        None => Seq::empty(),
    }
}

/// The devices to ping, given the answer to the listing of the devices that
/// can be reached: all that are listed, or those that `names` finds among
/// them; with the warnings of what the command wrote to its error stream and
/// of each name that finds none. A command that could not be run and a line
/// that names no device are errors.
pub open spec fn resolved(names: Option<Seq<Seq<char>>>, outcome: Result<Output, String>) -> (
    Result<Seq<KDEConnectView>, error::KDEConnectView>,
    Seq<Seq<char>>,
) {
    let warned = noted(listed(outcome).1);
    match listed(outcome).0 {
        Err(e) => (Err(e), warned),
        Ok(devices) => match names {
            None => (Ok(devices), warned),
            Some(names) => (Ok(found(devices, names)), warned + missed(devices, names)),
        },
    }
}

/// The first name of `names` that no device of `known` has, if there is one.
pub open spec fn unknown(names: Seq<Seq<char>>, known: Seq<KDEConnectView>) -> Option<Seq<char>>
    decreases names.len(),
{
    if names.len() == 0 {
        None
    } else {
        match unknown(names.drop_last(), known) {
            Some(name) => Some(name),
            None => if lookup(known, names.last()) is None {
                Some(names.last())
            } else {
                None
            },
        }
    }
}

/// Whether every name is that of a device that is known at all, given the
/// answer to the listing of all known devices; with the warning of what the
/// command wrote to its error stream.
///
/// Without names nothing is asked of the answer. With names, a command that
/// could not be run and a line that names no device are errors, and so is
/// the first name that no known device has.
pub open spec fn required(names: Option<Seq<Seq<char>>>, known: Result<Output, String>) -> (
    Result<(), error::KDEConnectView>,
    Seq<Seq<char>>,
) {
    match names {
        None => (Ok(()), Seq::empty()),
        Some(names) => {
            let warned = noted(listed(known).1);
            match listed(known).0 {
                Err(e) => (Err(e), warned),
                Ok(devices) => match unknown(names, devices) {
                    Some(name) => (
                        Err(
                            error::KDEConnectView::Device(
                                error::KDEConnectDeviceView::NotFound { name },
                            ),
                        ),
                        warned,
                    ),
                    None => (Ok(()), warned),
                },
            }
        },
    }
}

/// Whether a notifier can be made for `names`, and what making it warns of.
///
/// Each name has to be that of a device that is known at all: `known` is
/// the answer to the listing of all known devices. After that, `available`,
/// the answer to the listing of the devices that can be reached now, has to
/// read well; a name that finds no device there is only warned of.
pub open spec fn checked(
    names: Option<Seq<Seq<char>>>,
    known: Result<Output, String>,
    available: Result<Output, String>,
) -> (Result<(), error::KDEConnectView>, Seq<Seq<char>>) {
    match required(names, known).0 {
        Err(e) => (Err(e), required(names, known).1),
        Ok(_) => (
            match resolved(names, available).0 {
                Ok(_) => Ok(()),
                Err(e) => Err(e),
            },
            required(names, known).1 + resolved(names, available).1,
        ),
    }
}

/// How sending `message` goes on with `targets`: the first is pinged and the
/// others wait, or nothing is left to do.
pub open spec fn next(message: Seq<char>, targets: Seq<KDEConnectView>) -> (
    PhaseView,
    Option<RequestView>,
) {
    if targets.len() == 0 {
        (PhaseView::Idle, None)
    } else {
        (
            PhaseView::Pinging { message, targets: targets.drop_first() },
            Some(RequestView::Execute { args: ping_args(targets[0].id, message) }),
        )
    }
}

/// How a notifier in `phase` goes on with `answer`: the phase after it, the
/// next request or what went wrong, and the warnings.
///
/// The answer to the listing gives the devices to ping. The answer to a ping
/// lets the next device be pinged; a command that could not be run ends the
/// sending. Any other answer ends what is under way.
pub open spec fn advanced(names: Option<Seq<Seq<char>>>, phase: PhaseView, answer: Answer) -> (
    PhaseView,
    Result<Option<RequestView>, error::KDEConnectView>,
    Seq<Seq<char>>,
) {
    match (phase, answer) {
        (PhaseView::Listing { message }, Answer::Executed(outcome)) => match resolved(
            names,
            outcome,
        ) {
            (Err(reason), warnings) => (PhaseView::Idle, Err(reason), warnings),
            (Ok(targets), warnings) => (
                next(message, targets).0,
                Ok(next(message, targets).1),
                warnings,
            ),
        },
        (PhaseView::Pinging { message, targets }, Answer::Executed(outcome)) => match outcome {
            Err(reason) => (
                PhaseView::Idle,
                Err(error::KDEConnectView::Cli(reason@)),
                Seq::empty(),
            ),
            Ok(output) => (
                next(message, targets).0,
                Ok(next(message, targets).1),
                noted(stderr_warning(output.stderr@)),
            ),
        },
        _ => (PhaseView::Idle, Ok(None), Seq::empty()),
    }
}

/// The text of a notifier that keeps `names`.
pub open spec fn notifier_text(names: Option<Seq<Seq<char>>>) -> Seq<char> {
    "KDE Connect Notifier: device_names = "@ + match names {
        None => "All"@,
        Some(names) => "["@ + joined(names) + "]"@,
    }
}

/// The first unknown name of a part of the names is the first of all of them.
pub proof fn lemma_unknown(names: Seq<Seq<char>>, known: Seq<KDEConnectView>, n: int)
    requires
        0 <= n <= names.len(),
        unknown(names.take(n), known) is Some,
    ensures
        unknown(names, known) == unknown(names.take(n), known),
    decreases names.len() - n,
{
    if n < names.len() {
        assert(names.take(n + 1).drop_last() =~= names.take(n));
        lemma_unknown(names, known, n + 1);
    } else {
        assert(names.take(n) =~= names);
    }
}

/// A name that no known device has keeps the notifier from being made: the
/// first such name is the error, whatever can be reached now.
pub proof fn lemma_unknown_name_fails(
    names: Seq<Seq<char>>,
    known: Result<Output, String>,
    available: Result<Output, String>,
    at: int,
)
    requires
        0 <= at < names.len(),
        listed(known).0 matches Ok(devices) && lookup(devices, names[at]) is None,
    ensures
        checked(Some(names), known, available).0 matches Err(
            error::KDEConnectView::Device(error::KDEConnectDeviceView::NotFound { name }),
        ) && lookup(listed(known).0->Ok_0, name) is None,
{
    let devices = listed(known).0->Ok_0;
    lemma_unknown_found(names, devices, at);
    lemma_unknown_is_unknown(names, devices);
}

/// A name of a device that is known but cannot be reached now does not keep
/// the notifier from being made: it is warned of.
pub proof fn lemma_unavailable_name_warns(
    name: Seq<char>,
    known: Result<Output, String>,
    available: Result<Output, String>,
)
    requires
        listed(known).0 matches Ok(devices) && lookup(devices, name) is Some,
        listed(available).0 matches Ok(devices) && lookup(devices, name) is None,
    ensures
        checked(Some(seq![name]), known, available).0 is Ok,
        checked(Some(seq![name]), known, available).1 == noted(listed(known).1) + (noted(
            listed(available).1,
        ) + seq![crate::device::kde_connect::find::warning(name)]),
{
    let names = seq![name];
    let none = Seq::<Seq<char>>::empty();
    let familiar = listed(known).0->Ok_0;
    let reachable = listed(available).0->Ok_0;
    assert(names.drop_last() =~= none);
    assert(names.last() == name);
    assert(unknown(none, familiar) is None);
    assert(unknown(names, familiar) is None);
    assert(left(reachable, none) == reachable);
    assert(missed(reachable, none) =~= none);
    assert(missed(reachable, names) =~= seq![crate::device::kde_connect::find::warning(name)]);
}

/// Where a name is that of no known device, there is a first such name.
pub proof fn lemma_unknown_found(names: Seq<Seq<char>>, known: Seq<KDEConnectView>, at: int)
    requires
        0 <= at < names.len(),
        lookup(known, names[at]) is None,
    ensures
        unknown(names, known) is Some,
    decreases names.len(),
{
    if at < names.len() - 1 {
        let earlier = names.drop_last();
        assert(earlier[at] == names[at]);
        lemma_unknown_found(earlier, known, at);
    }
}

/// The first unknown name is that of no known device.
pub proof fn lemma_unknown_is_unknown(names: Seq<Seq<char>>, known: Seq<KDEConnectView>)
    ensures
        unknown(names, known) matches Some(name) ==> lookup(known, name) is None && names.contains(
            name,
        ),
    decreases names.len(),
{
    if names.len() > 0 {
        lemma_unknown_is_unknown(names.drop_last(), known);
        match unknown(names.drop_last(), known) {
            Some(name) => {
                let i = choose|i: int| 0 <= i < names.drop_last().len() && names.drop_last()[i] == name;
                assert(names[i] == name);
            },
            None => {
                assert(names[names.len() - 1] == names.last());
            },
        }
    }
}

/// Pings the first of `targets` with `message`, if there is one, and lets the others wait.
fn advance(message: String, targets: Vec<KDEConnect>) -> (r: (Phase, Option<Request>))
    ensures
        r.0@ == next(message@, targets.deep_view()).0,
        crate::notification::asked(r.1) == next(message@, targets.deep_view()).1,
{
    let mut targets = targets;
    let ghost all = targets.deep_view();
    if targets.len() == 0 {
        assert(all.len() == 0);
        (Phase::Idle, None)
    } else {
        assert(all[0] == targets@[0]@);
        let device = targets.remove(0);
        assert(targets.deep_view() =~= all.drop_first());
        let request = device.ping(message.as_str());
        (Phase::Pinging { message, targets }, Some(request))
    }
}

/// The warnings that a warning adds.
fn note(warning: Option<String>) -> (warnings: Vec<String>)
    ensures
        warnings.deep_view() == noted(
            match warning {
                Some(text) => Some(text@),
                None => None,
            },
        ),
{
    let mut warnings: Vec<String> = Vec::new();
    match warning {
        Some(text) => {
            let ghost shown = text@;
            warnings.push(text);
            assert(warnings.deep_view() =~= seq![shown]);
        },
        None => {
            assert(warnings.deep_view() =~= Seq::<Seq<char>>::empty());
        },
    }
    warnings
}

impl Notifier {
    /// A notifier for the devices named in `device_names`, or for every device
    /// where no name is given.
    ///
    /// `known` is the answer to the listing of all known devices, and
    /// `available` that to the listing of the devices that can be reached
    /// now. They are looked through once, to fail at once where the command
    /// cannot be run, a line names no device, or a name is that of no device
    /// that is known at all; and to warn of names whose device cannot be
    /// reached now.
    pub fn new(
        device_names: Vec<String>,
        known: Result<Output, String>,
        available: Result<Output, String>,
    ) -> (r: (Result<Self, error::KDEConnect>, Vec<String>))
        ensures
            r.1.deep_view() == checked(kept(device_names.deep_view()), known, available).1,
            match checked(kept(device_names.deep_view()), known, available).0 {
                Ok(_) => r.0 matches Ok(notifier) && notifier@ == (NotifierView {
                    device_names: kept(device_names.deep_view()),
                    phase: PhaseView::Idle,
                }),
                Err(reason) => r.0 matches Err(e) && e@ == reason,
            },
    {
        assert(device_names.deep_view().len() == device_names.len());
        let notifier = Self {
            device_names: if device_names.len() == 0 {
                None
            } else {
                Some(unique(device_names))
            },
            phase: Phase::Idle,
        };
        let (required, mut warnings) = notifier.require(known);
        match required {
            Ok(()) => {},
            Err(e) => {
                return (Err(e), warnings);
            },
        }
        let ghost warned = warnings.deep_view();
        let (devices, mut more) = notifier.find_available(available);
        let ghost added = more.deep_view();
        warnings.append(&mut more);
        assert(warnings.deep_view() =~= warned + added);
        match devices {
            Ok(_) => (Ok(notifier), warnings),
            Err(e) => (Err(e), warnings),
        }
    }

    /// Whether every name of the notifier is that of a device that is known
    /// at all, given the answer to the listing of all known devices; and the
    /// warnings that the answer gives rise to.
    pub fn require(&self, known: Result<Output, String>) -> (r: (
        Result<(), error::KDEConnect>,
        Vec<String>,
    ))
        ensures
            r.1.deep_view() == required(self@.device_names, known).1,
            match required(self@.device_names, known).0 {
                Ok(_) => r.0 is Ok,
                Err(reason) => r.0 matches Err(e) && e@ == reason,
            },
    {
        let names = match &self.device_names {
            Some(names) => names,
            None => {
                return (Ok(()), note(None));
            },
        };
        let (devices, warning) = kde_connect::map::all(known);
        let warnings = note(warning);
        let devices = match devices {
            Ok(devices) => devices,
            Err(e) => {
                return (Err(e), warnings);
            },
        };
        let mut i: usize = 0;
        assert(names.deep_view().take(0) =~= Seq::<Seq<char>>::empty());
        while i < names.len()
            invariant
                i <= names.len(),
                names.deep_view().len() == names.len(),
                unknown(names.deep_view().take(i as int), devices.deep_view()) is None,
                self@.device_names == Some(names.deep_view()),
                listed(known).0 == Ok::<Seq<KDEConnectView>, error::KDEConnectView>(
                    devices.deep_view(),
                ),
                warnings.deep_view() == noted(listed(known).1),
            decreases names.len() - i,
        {
            let ghost prefix = names.deep_view().take(i as int + 1);
            assert(prefix.drop_last() =~= names.deep_view().take(i as int));
            assert(prefix.last() == names@[i as int]@);
            if kde_connect::map::index_of(&devices, names[i].as_str()).is_none() {
                proof {
                    assert(unknown(prefix, devices.deep_view()) == Some(names@[i as int]@));
                    lemma_unknown(names.deep_view(), devices.deep_view(), i as int + 1);
                }
                return (
                    Err(
                        error::KDEConnect::Device(
                            error::KDEConnectDevice::NotFound { name: names[i].clone() },
                        ),
                    ),
                    warnings,
                );
            }
            i += 1;
        }
        assert(names.deep_view().take(i as int) =~= names.deep_view());
        (Ok(()), warnings)
    }

    /// What to ask first to ping the devices with `message`: the devices that
    /// can be reached now. They are asked for each time, since they change.
    pub fn ping(&mut self, message: &Message) -> (request: Request)
        ensures
            final(self)@ == (NotifierView {
                phase: PhaseView::Listing { message: text_of(message@) },
                ..old(self)@
            }),
            request@ == (RequestView::Execute { args: list::available_args() }),
    {
        let text = String::from_str(message.summary()).concat("\n\n").concat(message.body());
        self.phase = Phase::Listing { message: text };
        list::available()
    }

    /// The devices to ping, given the answer to the listing of the devices
    /// that can be reached now; and the warnings that the answer gives rise to.
    pub fn find_available(&self, available: Result<Output, String>) -> (r: (
        Result<Vec<KDEConnect>, error::KDEConnect>,
        Vec<String>,
    ))
        ensures
            r.1.deep_view() == resolved(self@.device_names, available).1,
            match resolved(self@.device_names, available).0 {
                Ok(devices) => r.0 matches Ok(targets) && targets.deep_view() == devices,
                Err(reason) => r.0 matches Err(e) && e@ == reason,
            },
    {
        let (devices, warning) = kde_connect::map::available(available);
        let mut warnings = note(warning);
        let mut devices = match devices {
            Ok(devices) => devices,
            Err(e) => {
                return (Err(e), warnings);
            },
        };
        match &self.device_names {
            None => (Ok(devices), warnings),
            Some(names) => {
                let ghost warned = warnings.deep_view();
                let (targets, mut missing) = find::all(&mut devices, names);
                let ghost missed = missing.deep_view();
                warnings.append(&mut missing);
                assert(warnings.deep_view() =~= warned + missed);
                (Ok(targets), warnings)
            },
        }
    }
}

impl PlatformNotifier for Notifier {
    type Error = error::KDEConnect;

    open spec fn notified(&self, message: MessageView, after: &Self) -> bool {
        after@ == (NotifierView { phase: PhaseView::Listing { message: text_of(message) }, ..self@ })
    }

    open spec fn notifies(&self, message: MessageView) -> Option<RequestView> {
        Some(RequestView::Execute { args: list::available_args() })
    }

    open spec fn removed(&self, after: &Self) -> bool {
        after@ == self@
    }

    open spec fn removes(&self) -> Option<RequestView> {
        None
    }

    open spec fn resumed(&self, answer: Answer, after: &Self) -> bool {
        after@ == (NotifierView {
            phase: advanced(self@.device_names, self@.phase, answer).0,
            ..self@
        })
    }

    open spec fn resumes(&self, answer: Answer) -> (
        Result<Option<RequestView>, error::KDEConnectView>,
        Seq<Seq<char>>,
    ) {
        let step = advanced(self@.device_names, self@.phase, answer);
        (step.1, step.2)
    }

    fn notify(&mut self, message: &Message) -> (request: Option<Request>) {
        Some(self.ping(message))
    }

    /// Nothing: a ping that was sent cannot be taken back.
    fn remove(&mut self) -> (request: Option<Request>) {
        None
    }

    fn resume(&mut self, answer: Answer) -> (r: (Result<Option<Request>, Self::Error>, Vec<String>)) {
        let mut phase = Phase::Idle;
        std::mem::swap(&mut self.phase, &mut phase);
        match (phase, answer) {
            (Phase::Listing { message }, Answer::Executed(outcome)) => {
                let (targets, warnings) = self.find_available(outcome);
                match targets {
                    Ok(targets) => {
                        let (phase, request) = advance(message, targets);
                        self.phase = phase;
                        (Ok(request), warnings)
                    },
                    Err(e) => (Err(e), warnings),
                }
            },
            (Phase::Pinging { message, targets }, Answer::Executed(outcome)) => {
                let (stdout, warning) = execute(outcome);
                let warnings = note(warning);
                match stdout {
                    Ok(_) => {
                        let (phase, request) = advance(message, targets);
                        self.phase = phase;
                        (Ok(request), warnings)
                    },
                    Err(e) => (Err(e), warnings),
                }
            },
            _ => {
                let warnings: Vec<String> = Vec::new();
                assert(warnings.deep_view() =~= Seq::<Seq<char>>::empty());
                (Ok(None), warnings)
            },
        }
    }
}

impl Describe for Notifier {
    open spec fn text(&self) -> Seq<char> {
        notifier_text(self@.device_names)
    }

    fn describe(&self) -> (s: String) {
        let device_names = match &self.device_names {
            None => String::from_str("All"),
            Some(names) => String::from_str("[").concat(format_string_set(names).as_str()).concat(
                "]",
            ),
        };
        String::from_str("KDE Connect Notifier: device_names = ").concat(device_names.as_str())
    }
}

} // verus!

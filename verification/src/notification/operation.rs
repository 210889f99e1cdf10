//! One operation on a notifier that may be switched off.

use crate::notification::{asked, Message, PlatformNotifier};
use crate::notification::message::MessageView;
use crate::common::{warn_on_err, warning_text};
use crate::error::Failure;
use crate::platform::{Answer, Request, RequestView};
use vstd::prelude::*;

verus! {

/// What a notifier can be told to do.
#[derive(Debug, Clone, Copy, Eq, PartialEq, Structural)]
pub enum Operation {
    Notify,
    Remove,
}

/// Whether `notify` with `message` makes `after` of `before` and asks for
/// `request`: a notifier that is switched off stays so and asks for nothing.
pub open spec fn notified<N: PlatformNotifier>(
    before: Option<N>,
    message: MessageView,
    after: Option<N>,
    request: Option<RequestView>,
) -> bool {
    match before {
        None => after is None && request is None,
        Some(notifier) => after matches Some(next) && notifier.notified(message, &next) && request
            == notifier.notifies(message),
    }
}

/// Whether `remove` makes `after` of `before` and asks for `request`: a
/// notifier that is switched off stays so and asks for nothing.
pub open spec fn removed<N: PlatformNotifier>(
    before: Option<N>,
    after: Option<N>,
    request: Option<RequestView>,
) -> bool {
    match before {
        None => after is None && request is None,
        Some(notifier) => after matches Some(next) && notifier.removed(&next) && request
            == notifier.removes(),
    }
}

/// Starts to show `message` on `notifier`, if it is switched on.
pub fn notify<N>(notifier: &mut Option<N>, message: &Message) -> (request: Option<Request>) where
    N: PlatformNotifier,

    ensures
        notified(*old(notifier), message@, *final(notifier), asked(request)),
{
    operation(notifier, Operation::Notify, message)
}

/// Starts to take back what `notifier` shows, if it is switched on.
pub fn remove<N>(notifier: &mut Option<N>) -> (request: Option<Request>) where N: PlatformNotifier
    ensures
        removed(*old(notifier), *final(notifier), asked(request)),
{
    match notifier {
        Some(notifier) => notifier.remove(),
        None => None,
    }
}

/// What `resume` with `answer` asks for on `notifier`, and what it warns of.
/// What went wrong is no error here but one more warning, after which
/// nothing is left to ask.
pub open spec fn suppressed<N: PlatformNotifier>(notifier: N, answer: Answer) -> (
    Option<RequestView>,
    Seq<Seq<char>>,
) {
    match notifier.resumes(answer).0 {
        Ok(request) => (request, notifier.resumes(answer).1),
        Err(reason) => (
            None,
            notifier.resumes(answer).1.push(
                warning_text("notification"@, <N::Error as Failure>::written(reason)),
            ),
        ),
    }
}

/// Whether `resume` with `answer` makes `after` of `before`, asks for
/// `request` and warns of `warnings`: a notifier that is switched off stays
/// so, asks for nothing and warns of nothing.
pub open spec fn resumed<N: PlatformNotifier>(
    before: Option<N>,
    answer: Answer,
    after: Option<N>,
    request: Option<RequestView>,
    warnings: Seq<Seq<char>>,
) -> bool {
    match before {
        None => after is None && request is None && warnings == Seq::<Seq<char>>::empty(),
        Some(notifier) => after matches Some(next) && notifier.resumed(answer, &next) && (
            request,
            warnings,
        ) == suppressed(notifier, answer),
    }
}

/// Goes on with the platform's answer on `notifier`, if it is switched on.
/// What went wrong there goes no further: it becomes a warning.
pub fn resume<N>(notifier: &mut Option<N>, answer: Answer) -> (r: (Option<Request>, Vec<String>)) where
    N: PlatformNotifier,

    ensures
        resumed(*old(notifier), answer, *final(notifier), asked(r.0), r.1.deep_view()),
{
    match notifier.take() {
        Some(inner) => {
            let mut inner = inner;
            let ghost before = inner;
            let (outcome, mut warnings) = inner.resume(answer);
            let ghost warned = warnings.deep_view();
            let ghost went = crate::notification::went(outcome);
            let ghost failed = outcome;
            proof {
                match failed {
                    Err(e) => {
                        e.lemma_written();
                    },
                    Ok(_) => {},
                }
            }
            let (request, warning) = warn_on_err("notification", outcome);
            match warning {
                Some(warning) => {
                    let ghost text = warning@;
                    warnings.push(warning);
                    assert(warnings.deep_view() =~= warned.push(text));
                },
                None => {},
            }
            let request = match request {
                Some(request) => request,
                None => None,
            };
            assert(resumed(Some(before), answer, Some(inner), asked(request), warnings.deep_view()));
            *notifier = Some(inner);
            (request, warnings)
        },
        None => {
            let warnings: Vec<String> = Vec::new();
            assert(warnings.deep_view() =~= Seq::<Seq<char>>::empty());
            (None, warnings)
        },
    }
}

/// Starts `op` on `notifier`, if it is switched on. To remove, the message plays no part.
pub fn operation<N>(notifier: &mut Option<N>, op: Operation, message: &Message) -> (request: Option<
    Request,
>) where N: PlatformNotifier
    ensures
        match op {
            Operation::Notify => notified(*old(notifier), message@, *final(notifier), asked(request)),
            Operation::Remove => removed(*old(notifier), *final(notifier), asked(request)),
        },
{
    match notifier {
        Some(notifier) => match op {
            Operation::Notify => notifier.notify(message),
            Operation::Remove => notifier.remove(),
        },
        None => None,
    }
}

} // verus!

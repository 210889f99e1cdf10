//! Alerts on the desktop.

use crate::common::{format_option, option_text, Describe};
use crate::error;
use crate::notification::message::MessageView;
use crate::notification::{Message, PlatformNotifier};
use crate::platform::{Alert, AlertView, Answer, Request, RequestView, Timeout, Urgency};
use vstd::prelude::*;
use vstd::string::*;

verus! {

/// The desktop notifier: it remembers the alert that is shown.
#[derive(Debug)]
pub struct Notifier {
    handle: Option<u32>,
}

/// The alert that is made of a summary and a body: it names this program,
/// is critical and does not go away by itself.
pub open spec fn alert(summary: Seq<char>, body: Seq<char>) -> AlertView {
    AlertView {
        appname: "rusty-battery"@,
        summary,
        body,
        icon: "battery"@,
        timeout: Timeout::Never,
        urgency: Urgency::Critical,
    }
}

/// What is asked of the desktop to show `message` when `handle` is remembered:
/// a new alert where none is shown, else the one that is shown with the new text.
pub open spec fn shows(handle: Option<u32>, message: MessageView) -> RequestView {
    match handle {
        None => RequestView::Show(alert(message.summary, message.body)),
        Some(id) => RequestView::Update { id, summary: message.summary, body: message.body },
    }
}

/// What is asked of the desktop to take back the alert when `handle` is remembered.
pub open spec fn closes(handle: Option<u32>) -> Option<RequestView> {
    match handle {
        None => None,
        Some(id) => Some(RequestView::Close { id }),
    }
}

/// The handle that is remembered after `answer`: that of a new alert counts
/// where none was remembered.
pub open spec fn remembers(handle: Option<u32>, answer: Answer) -> Option<u32> {
    match answer {
        Answer::Shown(Ok(id)) => if handle is None {
            Some(id)
        } else {
            handle
        },
        _ => handle,
    }
}

/// What went wrong according to `answer`, if the desktop turned an alert down.
pub open spec fn refusal(answer: Answer) -> Option<error::NotificationView> {
    match answer {
        Answer::Shown(Err(reason)) => Some(error::NotificationView::Desktop(reason@)),
        Answer::Updated(Err(reason)) => Some(error::NotificationView::Desktop(reason@)),
        _ => None,
    }
}

/// Showing twice makes one alert: a notifier that remembers none asks for a
/// new alert; once the desktop has shown it, the next message goes into that
/// alert, and no second one is asked for.
pub proof fn lemma_second_notify_updates(first: MessageView, id: u32, second: MessageView)
    ensures
        shows(None, first) == RequestView::Show(alert(first.summary, first.body)),
        remembers(None, Answer::Shown(Ok(id))) == Some(id),
        shows(remembers(None, Answer::Shown(Ok(id))), second) == (RequestView::Update {
            id,
            summary: second.summary,
            body: second.body,
        }),
{
}

/// A notifier that remembers an alert never asks for a new one, whatever
/// the desktop answers in between: at most one alert is shown at a time.
pub proof fn lemma_one_alert_at_most(id: u32, answer: Answer, message: MessageView)
    ensures
        remembers(Some(id), answer) == Some(id),
        shows(remembers(Some(id), answer), message) is Update,
{
}

/// Taking back where nothing is shown asks for nothing and changes
/// nothing, and no answer to it is an error.
pub proof fn lemma_close_without_alert(answer: Answer)
    ensures
        closes(None) is None,
        refusal(answer) is Some ==> answer is Shown || answer is Updated,
        refusal(Answer::Closed) is None,
{
}

impl Notifier {
    /// A notifier that remembers no alert.
    pub fn new() -> (notifier: Self)
        ensures
            notifier.handle() is None,
    {
        Self { handle: None }
    }

    /// The id of the alert that is shown, if one is.
    pub closed spec fn handle(&self) -> Option<u32> {
        self.handle
    }

    /// The id of the alert that is shown, if one is.
    pub fn id(&self) -> (id: Option<u32>)
        ensures
            id == self.handle(),
    {
        self.handle
    }

    /// What to ask of the desktop to show `message`: a new alert the first
    /// time, and after that the alert that is shown with the new text.
    pub fn show(&self, message: &Message) -> (request: Request)
        ensures
            request@ == shows(self.handle(), message@),
    {
        match self.handle {
            Some(id) => Request::Update {
                id,
                summary: String::from_str(message.summary()),
                body: String::from_str(message.body()),
            },
            None => Request::Show(create_notification(message.summary(), message.body())),
        }
    }

    /// Forgets the alert that is shown and returns what closes it. Without
    /// an alert there is nothing to close and nothing is returned.
    pub fn close(&mut self) -> (request: Option<Request>)
        ensures
            final(self).handle() is None,
            crate::notification::asked(request) == closes(old(self).handle()),
    {
        match self.handle.take() {
            None => None,
            Some(id) => Some(Request::Close { id }),
        }
    }
}

impl PlatformNotifier for Notifier {
    type Error = error::Notification;

    open spec fn notified(&self, message: MessageView, after: &Self) -> bool {
        after.handle() == self.handle()
    }

    open spec fn notifies(&self, message: MessageView) -> Option<RequestView> {
        Some(shows(self.handle(), message))
    }

    open spec fn removed(&self, after: &Self) -> bool {
        after.handle() is None
    }

    open spec fn removes(&self) -> Option<RequestView> {
        closes(self.handle())
    }

    open spec fn resumed(&self, answer: Answer, after: &Self) -> bool {
        after.handle() == remembers(self.handle(), answer)
    }

    open spec fn resumes(&self, answer: Answer) -> (
        Result<Option<RequestView>, error::NotificationView>,
        Seq<Seq<char>>,
    ) {
        (
            match refusal(answer) {
                Some(reason) => Err(reason),
                None => Ok(None),
            },
            Seq::empty(),
        )
    }

    fn notify(&mut self, message: &Message) -> (request: Option<Request>) {
        Some(self.show(message))
    }

    fn remove(&mut self) -> (request: Option<Request>) {
        self.close()
    }

    fn resume(&mut self, answer: Answer) -> (r: (Result<Option<Request>, Self::Error>, Vec<String>)) {
        let warnings: Vec<String> = Vec::new();
        assert(warnings.deep_view() =~= Seq::<Seq<char>>::empty());
        match answer {
            Answer::Shown(Ok(id)) => {
                if self.handle.is_none() {
                    self.handle = Some(id);
                }
                (Ok(None), warnings)
            },
            Answer::Shown(Err(reason)) => (Err(error::Notification::Desktop(reason)), warnings),
            Answer::Updated(Err(reason)) => (Err(error::Notification::Desktop(reason)), warnings),
            _ => (Ok(None), warnings),
        }
    }
}

/// The alert with the given summary and body.
pub fn create_notification(summary: &str, body: &str) -> (notification: Alert)
    ensures
        notification@ == alert(summary@, body@),
{
    Alert {
        appname: String::from_str("rusty-battery"),
        summary: String::from_str(summary),
        body: String::from_str(body),
        icon: String::from_str("battery"),
        timeout: Timeout::Never,
        urgency: Urgency::Critical,
    }
}

/// The text of a desktop notifier that remembers `handle`.
pub open spec fn notifier_text(handle: Option<u32>) -> Seq<char> {
    "Desktop Notifier: handle = "@ + option_text(handle)
}

impl Describe for Notifier {
    open spec fn text(&self) -> Seq<char> {
        notifier_text(self.handle())
    }

    fn describe(&self) -> (s: String) {
        String::from_str("Desktop Notifier: handle = ").concat(
            format_option(self.handle).as_str(),
        )
    }
}

} // verus!

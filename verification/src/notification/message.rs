//! The text of an alert, made from templates.
//!
//! A template names the threshold, the battery's model and the refresh
//! interval, which are filled in once, and the charge, which is filled in
//! each time the battery was looked at.

use crate::device;
use crate::text::{decimal, number, replace, replaced};
use vstd::prelude::*;
use vstd::string::*;

verus! {

/// The text of an alert and the templates it is made from.
#[derive(Debug)]
pub struct Message {
    pub summary: String,
    pub body: String,
    summary_template: String,
    body_template: String,
}

/// A message as the contracts see it.
pub struct MessageView {
    pub summary: Seq<char>,
    pub body: Seq<char>,
    pub summary_template: Seq<char>,
    pub body_template: Seq<char>,
}

impl View for Message {
    type V = MessageView;

    closed spec fn view(&self) -> MessageView {
        MessageView {
            summary: self.summary@,
            body: self.body@,
            summary_template: self.summary_template@,
            body_template: self.body_template@,
        }
    }
}

/// `template` with the threshold, the model and the refresh interval filled in, in this order.
pub open spec fn set_up(
    template: Seq<char>,
    threshold: u8,
    model: Seq<char>,
    refresh_secs: u64,
) -> Seq<char> {
    replaced(
        replaced(replaced(template, "$THRESHOLD"@, decimal(threshold as nat)), "$MODEL"@, model),
        "$REFRESH_SECS"@,
        decimal(refresh_secs as nat),
    )
}

/// `template` with the charge filled in.
pub open spec fn rendered(template: Seq<char>, percentage: u8) -> Seq<char> {
    replaced(template, "$CHARGE_STATE"@, decimal(percentage as nat))
}

impl Message {
    /// The summary of the alert.
    pub fn summary(&self) -> (summary: &str)
        ensures
            summary@ == self@.summary,
    {
        self.summary.as_str()
    }

    /// The body of the alert.
    pub fn body(&self) -> (body: &str)
        ensures
            body@ == self@.body,
    {
        self.body.as_str()
    }

    /// A message from two templates: what does not change is filled in for
    /// good, and the text is that for the charge of `battery`.
    pub fn new(
        summary_template: String,
        body_template: String,
        threshold: u8,
        battery: &device::Battery,
        refresh_secs: u64,
    ) -> (message: Self)
        ensures
            message@.summary_template == set_up(
                summary_template@,
                threshold,
                battery@.model,
                refresh_secs,
            ),
            message@.body_template == set_up(body_template@, threshold, battery@.model, refresh_secs),
            message@.summary == rendered(message@.summary_template, battery@.percentage),
            message@.body == rendered(message@.body_template, battery@.percentage),
    {
        let mut message = Self {
            summary: String::from_str(""),
            body: String::from_str(""),
            summary_template,
            body_template,
        };
        message.setup(threshold, refresh_secs, battery);
        message.update(battery);
        message
    }

    /// Makes the text anew for the charge of `battery`. The templates stay as they are.
    pub fn update(&mut self, battery: &device::Battery)
        ensures
            final(self)@ == (MessageView {
                summary: rendered(old(self)@.summary_template, battery@.percentage),
                body: rendered(old(self)@.body_template, battery@.percentage),
                ..old(self)@
            }),
    {
        proof {
            reveal_strlit("$CHARGE_STATE");
        }
        let charge_state = number(battery.percentage as u64);
        self.summary = replace(self.summary_template.as_str(), "$CHARGE_STATE", charge_state.as_str());
        self.body = replace(self.body_template.as_str(), "$CHARGE_STATE", charge_state.as_str());
    }

    /// Fills into the templates what does not change. The text stays as it is.
    fn setup(&mut self, threshold: u8, refresh_secs: u64, battery: &device::Battery)
        ensures
            final(self)@ == (MessageView {
                summary_template: set_up(
                    old(self)@.summary_template,
                    threshold,
                    battery@.model,
                    refresh_secs,
                ),
                body_template: set_up(
                    old(self)@.body_template,
                    threshold,
                    battery@.model,
                    refresh_secs,
                ),
                ..old(self)@
            }),
    {
        proof {
            reveal_strlit("$THRESHOLD");
            reveal_strlit("$MODEL");
            reveal_strlit("$REFRESH_SECS");
        }
        let threshold_s = number(threshold as u64);
        let refresh_secs_s = number(refresh_secs);
        self.summary_template = replace(
            replace(
                replace(self.summary_template.as_str(), "$THRESHOLD", threshold_s.as_str()).as_str(),
                "$MODEL",
                battery.model.as_str(),
            ).as_str(),
            "$REFRESH_SECS",
            refresh_secs_s.as_str(),
        );
        self.body_template = replace(
            replace(
                replace(self.body_template.as_str(), "$THRESHOLD", threshold_s.as_str()).as_str(),
                "$MODEL",
                battery.model.as_str(),
            ).as_str(),
            "$REFRESH_SECS",
            refresh_secs_s.as_str(),
        );
    }
}

} // verus!

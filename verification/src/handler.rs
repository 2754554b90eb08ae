//! Which inbound messages are relayed, and what is said back to the channel.

use crate::config::Config;
use crate::failure::{Failure, FailureView};
use crate::http::{Outcome, OutcomeView};
use crate::message::{Msg, MsgView, RawMessage, RawMessageView};
use vstd::prelude::*;
use vstd::string::StringExecFns;

verus! {

/// The source filter of the relay.
#[derive(Debug, Clone, Copy, PartialEq, Eq, Structural)]
pub struct Handler {
    /// The author whose messages are relayed.
    pub relay_author: u64,
    /// The author whose messages are logged for diagnosis.
    pub log_author: u64,
}

/// What is to be done with an inbound message.
#[derive(Debug, Clone, PartialEq, Eq)]
pub enum Intake {
    /// Not from the relayed author: nothing is relayed and nothing is said.
    Ignore,
    /// Relay this captured message.
    Relay(Msg),
    /// From the relayed author, but nothing could be captured.
    Reject(Failure),
}

/// The mathematical content of an [`Intake`].
pub enum IntakeView {
    Ignore,
    Relay(MsgView),
    Reject(FailureView),
}

impl View for Intake {
    type V = IntakeView;

    open spec fn view(&self) -> IntakeView {
        match self {
            Intake::Ignore => IntakeView::Ignore,
            Intake::Relay(msg) => IntakeView::Relay(msg@),
            Intake::Reject(failure) => IntakeView::Reject(failure@),
        }
    }
}

impl Handler {
    /// What is to be done with `msg`: only messages of the relayed author
    /// are eligible, and of those the ones from which a message can be
    /// captured are relayed.
    pub open spec fn intake(self, msg: RawMessageView) -> IntakeView {
        if msg.author_id != self.relay_author {
            IntakeView::Ignore
        } else {
            match msg.captured() {
                Ok(captured) => IntakeView::Relay(captured),
                Err(failure) => IntakeView::Reject(failure),
            }
        }
    }
}

/// What is said back to the channel about `outcome`: a confirmation that
/// holds the published URL, or a diagnostic that names the failure.
pub open spec fn reply_text(outcome: OutcomeView) -> Seq<char> {
    match outcome {
        OutcomeView::Published(result) => match result.degraded {
            None => "Published: "@ + result.url,
            Some(failure) => "Published without media: "@ + result.url + " ("@
                + failure.describe() + ")"@,
        },
        OutcomeView::Failed(failure) => "Relay failed: "@ + failure.describe(),
    }
}

impl Handler {
    /// The filter that `conf` asks for.
    pub fn new(conf: &Config) -> (handler: Handler)
        ensures
            handler.relay_author == conf.relay_author,
            handler.log_author == conf.log_author,
    {
        Handler { relay_author: conf.relay_author, log_author: conf.log_author }
    }

    /// Whether `msg` is to be logged for diagnosis. Logging never makes a
    /// message eligible for relay.
    pub fn logs(&self, msg: &RawMessage) -> (logged: bool)
        ensures
            logged == (msg@.author_id == self.log_author),
    {
        msg.author_id == self.log_author
    }

    /// Decides what is to be done with the inbound message `msg`.
    pub fn message(&self, msg: &RawMessage) -> (intake: Intake)
        ensures
            intake@ == self.intake(msg@),
            msg@.author_id != self.relay_author ==> intake@ is Ignore,
    {
        if msg.author_id != self.relay_author {
            Intake::Ignore
        } else {
            match Msg::new().build_message(msg) {
                Ok(captured) => Intake::Relay(captured),
                Err(failure) => Intake::Reject(failure),
            }
        }
    }

    /// Puts `outcome` into the words that go back to the channel. Every
    /// failure kind is rendered: none reaches the channel as a raw value.
    pub fn reply(outcome: &Outcome) -> (text: String)
        ensures
            text@ == reply_text(outcome@),
    {
        match outcome {
            Outcome::Published(result) => match &result.degraded {
                None => {
                    let mut text = "Published: ".to_owned();
                    text.append(result.url.as_str());
                    text
                },
                Some(failure) => {
                    let mut text = "Published without media: ".to_owned();
                    text.append(result.url.as_str());
                    text.append(" (");
                    let diagnostic = failure.describe();
                    text.append(diagnostic.as_str());
                    text.append(")");
                    text
                },
            },
            Outcome::Failed(failure) => {
                let mut text = "Relay failed: ".to_owned();
                let diagnostic = failure.describe();
                text.append(diagnostic.as_str());
                text
            },
        }
    }
}

} // verus!

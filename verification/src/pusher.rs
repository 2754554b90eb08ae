//! One relay in progress.

use crate::config::Config;
use crate::http::{Action, Event, EventView};
use crate::mastodon::{Mastodon, MastodonView};
use crate::message::{Msg, MsgView};
use crate::publish::{Progress, ProgressView, Turn, TurnView, UploadPolicy};
use vstd::prelude::*;

verus! {

/// One relay: a captured message on its way to the publish endpoint.
#[derive(Debug, Clone, PartialEq, Eq)]
pub struct MessagePusher {
    pub message: Msg,
    pub list: Mastodon,
    pub policy: UploadPolicy,
    pub progress: Progress,
}

/// The mathematical content of a [`MessagePusher`].
pub struct MessagePusherView {
    pub message: MsgView,
    pub list: MastodonView,
    pub policy: UploadPolicy,
    pub progress: ProgressView,
}

impl View for MessagePusher {
    type V = MessagePusherView;

    open spec fn view(&self) -> MessagePusherView {
        MessagePusherView {
            message: self.message@,
            list: self.list@,
            policy: self.policy,
            progress: self.progress@,
        }
    }
}

impl MessagePusherView {
    /// The turn that `event` brings about.
    pub open spec fn turn(self, event: EventView) -> TurnView {
        self.list.send(self.message, self.policy, self.progress, event).1
    }

    /// The relay after `event`: the message and the policy stay, the
    /// credentials and the progress are those of the step.
    pub open spec fn push(self, event: EventView) -> MessagePusherView {
        MessagePusherView {
            message: self.message,
            list: self.list.send(self.message, self.policy, self.progress, event).0,
            policy: self.policy,
            progress: self.turn(event).progress,
        }
    }
}

impl MessagePusher {
    /// A relay of `msg` that has not begun, with the credentials and the
    /// upload policy of `conf`.
    pub fn build(msg: Msg, conf: Config) -> (pusher: MessagePusher)
        ensures
            pusher@ == (MessagePusherView {
                message: msg@,
                list: conf.mastodon@,
                policy: conf.upload_policy,
                progress: ProgressView::Idle,
            }),
    {
        MessagePusher {
            message: msg,
            list: conf.mastodon,
            policy: conf.upload_policy,
            progress: Progress::Idle,
        }
    }

    /// Takes the relay one step further: reports `event` and returns what
    /// is to be done next. The first event of a relay is `Event::Begin`;
    /// each later one is the outcome of the exchange that the previous
    /// action asked for.
    pub fn push(&mut self, event: Event) -> (action: Action)
        ensures
            final(self)@ == old(self)@.push(event@),
            action@ == old(self)@.turn(event@).action,
    {
        let mut progress = Progress::Done;
        core::mem::swap(&mut self.progress, &mut progress);
        let turn = self.list.send(&self.message, self.policy, progress, event);
        self.progress = turn.progress;
        turn.action
    }

    /// Whether the relay has ended.
    pub fn is_done(&self) -> (done: bool)
        ensures
            done == (self@.progress is Done),
    {
        match self.progress {
            Progress::Done => true,
            _ => false,
        }
    }
}

} // verus!

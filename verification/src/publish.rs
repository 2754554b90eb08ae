//! Publishing a captured message: token, optional upload, then the post.

use crate::failure::{Failure, FailureView};
use crate::http::{
    Action, ActionView, Event, EventView, Outcome, OutcomeView, PublishResult, PublishResultView,
    Request, RequestParameter, RequestParameterView, RequestView, Step, StepView,
    PUBLISH_ENDPOINT,
};
use crate::json::{json_text_field, text_field};
use crate::mastodon::{Mastodon, MastodonView};
use crate::message::{Msg, MsgView};
use crate::text::copy_text;
use crate::upload::{fetch_request, upload_image, Awaited};
use vstd::prelude::*;

verus! {

/// What to do with a message whose image could not be uploaded.
#[derive(Debug, Clone, Copy, PartialEq, Eq, Structural)]
pub enum UploadPolicy {
    /// Fail the relay with the upload's failure.
    Abort,
    /// Publish the text alone, where there is text, and report the
    /// upload's failure alongside the result.
    TextOnly,
}

/// How far a relay has come: which exchange it is waiting for.
#[derive(Debug, Clone, PartialEq, Eq)]
pub enum Progress {
    /// Not begun.
    Idle,
    /// Waiting for the token exchange.
    AwaitToken,
    /// Waiting for the image.
    AwaitImage { token: String },
    /// Waiting for the media endpoint.
    AwaitUpload { token: String },
    /// Waiting for the publish endpoint.
    AwaitPublish { degraded: Option<Failure> },
    /// Ended.
    Done,
}

/// The mathematical content of a [`Progress`].
pub enum ProgressView {
    Idle,
    AwaitToken,
    AwaitImage { token: Seq<char> },
    AwaitUpload { token: Seq<char> },
    AwaitPublish { degraded: Option<FailureView> },
    Done,
}

impl ProgressView {
    /// How many awaited events a relay at this progress can still take
    /// before it has ended.
    pub open spec fn remaining(self) -> nat {
        match self {
            ProgressView::Idle => 5,
            ProgressView::AwaitToken => 4,
            ProgressView::AwaitImage { .. } => 3,
            ProgressView::AwaitUpload { .. } => 2,
            ProgressView::AwaitPublish { .. } => 1,
            ProgressView::Done => 0,
        }
    }
}

impl View for Progress {
    type V = ProgressView;

    open spec fn view(&self) -> ProgressView {
        match self {
            Progress::Idle => ProgressView::Idle,
            Progress::AwaitToken => ProgressView::AwaitToken,
            Progress::AwaitImage { token } => ProgressView::AwaitImage { token: token@ },
            Progress::AwaitUpload { token } => ProgressView::AwaitUpload { token: token@ },
            Progress::AwaitPublish { degraded } => ProgressView::AwaitPublish {
                degraded: degraded.deep_view(),
            },
            Progress::Done => ProgressView::Done,
        }
    }
}

/// The publish body for `message` with the uploaded `media`, if any: the
/// text as status, the media handle as the only media id, public
/// visibility. What is absent stays absent.
pub open spec fn compose(message: MsgView, media: Option<Seq<char>>) -> RequestParameterView {
    RequestParameterView {
        status: message.message,
        media_ids: match media {
            Some(handle) => Some(seq![handle]),
            None => None,
        },
        visibility: "public"@,
    }
}

/// The exchange that publishes `message` with `media`, with `token` as bearer.
pub open spec fn publish_request(
    token: Seq<char>,
    message: MsgView,
    media: Option<Seq<char>>,
) -> RequestView {
    RequestView::Publish { url: PUBLISH_ENDPOINT@, token, body: compose(message, media) }
}

/// What a completed publish exchange means, given its body as text and the
/// `url` member read from it, whatever the status was.
pub open spec fn accept_publish(
    body: Seq<char>,
    url: Option<Seq<char>>,
    degraded: Option<FailureView>,
) -> OutcomeView {
    match url {
        Some(url) => OutcomeView::Published(PublishResultView { url, degraded }),
        None => OutcomeView::Failed(FailureView::PublishFailure { body }),
    }
}

/// Where a relay stands after a step, and what it asks of its caller.
#[derive(Debug, Clone, PartialEq, Eq)]
pub struct Turn {
    pub progress: Progress,
    pub action: Action,
}

/// The mathematical content of a [`Turn`].
pub struct TurnView {
    pub progress: ProgressView,
    pub action: ActionView,
}

impl View for Turn {
    type V = TurnView;

    open spec fn view(&self) -> TurnView {
        TurnView { progress: self.progress@, action: self.action@ }
    }
}

/// The relay ends with `failure`.
pub open spec fn fail(failure: FailureView) -> TurnView {
    TurnView {
        progress: ProgressView::Done,
        action: ActionView::Finish(OutcomeView::Failed(failure)),
    }
}

/// The relay stays where it is and asks for nothing.
pub open spec fn ignore(progress: ProgressView) -> TurnView {
    TurnView { progress, action: ActionView::Ignore }
}

/// The publish exchange is asked for, unless there is neither text nor
/// media to publish.
pub open spec fn publish_or_fail(
    token: Seq<char>,
    message: MsgView,
    media: Option<Seq<char>>,
    degraded: Option<FailureView>,
) -> TurnView {
    if message.message is None && media is None {
        fail(FailureView::MissingEmbed)
    } else {
        TurnView {
            progress: ProgressView::AwaitPublish { degraded },
            action: ActionView::Perform(publish_request(token, message, media)),
        }
    }
}

/// How the relay goes on from a step of token acquisition: with a token,
/// the image is asked for where the message has one, and the message is
/// published as it is where it has none.
pub open spec fn after_token(message: MsgView, step: StepView) -> TurnView {
    match step {
        StepView::Ask(request) => TurnView {
            progress: ProgressView::AwaitToken,
            action: ActionView::Perform(request),
        },
        StepView::Failed(failure) => fail(failure),
        StepView::Ready(token) => match message.attachment {
            Some(url) => TurnView {
                progress: ProgressView::AwaitImage { token },
                action: ActionView::Perform(fetch_request(url)),
            },
            None => publish_or_fail(token, message, None, None),
        },
    }
}

/// How the relay goes on from a step of the upload: an exchange is asked
/// for; the media handle goes into the publish request; a failure ends the
/// relay, unless the policy is `TextOnly` and there is text, in which case
/// the text is published alone and the failure is kept for the result.
pub open spec fn after_upload(
    token: Seq<char>,
    message: MsgView,
    policy: UploadPolicy,
    step: StepView,
) -> TurnView {
    match step {
        StepView::Ask(request) => TurnView {
            progress: if request is Fetch {
                ProgressView::AwaitImage { token }
            } else {
                ProgressView::AwaitUpload { token }
            },
            action: ActionView::Perform(request),
        },
        StepView::Ready(handle) => publish_or_fail(token, message, Some(handle), None),
        StepView::Failed(failure) => {
            if policy == UploadPolicy::TextOnly && message.message is Some {
                publish_or_fail(token, message, None, Some(failure))
            } else {
                fail(failure)
            }
        },
    }
}

/// Whether `event` is what a relay at `progress` waits for: `Begin` before
/// it has begun, the outcome of an exchange while one is awaited, and
/// nothing once it has ended.
pub open spec fn awaits(progress: ProgressView, event: EventView) -> bool {
    match progress {
        ProgressView::Idle => event is Begin,
        ProgressView::Done => false,
        _ => !(event is Begin),
    }
}

impl MastodonView {
    /// One step of a relay: from the credentials, the progress so far and
    /// an event, to the credentials and the turn that follow. An event that
    /// the progress does not await changes nothing.
    pub open spec fn send(
        self,
        message: MsgView,
        policy: UploadPolicy,
        progress: ProgressView,
        event: EventView,
    ) -> (MastodonView, TurnView) {
        if !awaits(progress, event) {
            (self, ignore(progress))
        } else {
            match progress {
                ProgressView::AwaitImage { token } => match message.attachment {
                    Some(url) => (
                        self,
                        after_upload(
                            token,
                            message,
                            policy,
                            upload_image(url, token, Awaited::Image, event),
                        ),
                    ),
                    None => (self, fail(FailureView::MissingEmbed)),
                },
                ProgressView::AwaitUpload { token } => match message.attachment {
                    Some(url) => (
                        self,
                        after_upload(
                            token,
                            message,
                            policy,
                            upload_image(url, token, Awaited::Media, event),
                        ),
                    ),
                    None => (self, fail(FailureView::MissingEmbed)),
                },
                ProgressView::AwaitPublish { degraded } => match event {
                    EventView::Response(response) => (
                        self,
                        TurnView {
                            progress: ProgressView::Done,
                            action: ActionView::Finish(
                                accept_publish(
                                    response.text(),
                                    json_text_field(response.text(), "url"@),
                                    degraded,
                                ),
                            ),
                        },
                    ),
                    EventView::Unreachable { detail } => (
                        self,
                        fail(FailureView::PublishFailure { body: detail }),
                    ),
                    EventView::Begin => (self, ignore(progress)),
                },
                _ => if message.publishable() {
                    (self.get_token(event).0, after_token(message, self.get_token(event).1))
                } else {
                    (self, fail(FailureView::MissingEmbed))
                },
            }
        }
    }
}

impl RequestParameter {
    /// The publish body for `message` with the uploaded `media`, if any.
    ///
    /// The status is the message's text exactly, and absent where the
    /// message has none. The media ids hold `media` alone, and are absent
    /// where nothing was uploaded. The image URL is never put into the text.
    pub fn build(message: &Msg, media: Option<String>) -> (body: RequestParameter)
        ensures
            body@ == compose(message@, media.deep_view()),
            body@.status == message@.message,
            media matches Some(handle) ==> body@.media_ids == Some(seq![handle@]),
            media is None ==> body@.media_ids is None,
    {
        let media_ids = match media {
            Some(handle) => {
                let mut ids: Vec<String> = Vec::new();
                ids.push(handle);
                assert(ids.deep_view() =~= seq![handle@]);
                Some(ids)
            },
            None => None,
        };
        RequestParameter {
            status: copy_text(&message.message),
            media_ids,
            visibility: "public".to_owned(),
        }
    }
}

impl Turn {
    /// The relay ends with `failure`.
    pub fn fail(failure: Failure) -> (turn: Turn)
        ensures
            turn@ == fail(failure@),
    {
        Turn { progress: Progress::Done, action: Action::Finish(Outcome::Failed(failure)) }
    }

    /// The relay stays at `progress` and asks for nothing.
    pub fn ignore(progress: Progress) -> (turn: Turn)
        ensures
            turn@ == ignore(progress@),
    {
        Turn { progress, action: Action::Ignore }
    }
}

impl Mastodon {
    /// Asks for the publish exchange for `message` with `media`, unless
    /// there is neither text nor media to publish.
    pub fn publish_or_fail(
        token: String,
        message: &Msg,
        media: Option<String>,
        degraded: Option<Failure>,
    ) -> (turn: Turn)
        ensures
            turn@ == publish_or_fail(
                token@,
                message@,
                media.deep_view(),
                degraded.deep_view(),
            ),
    {
        if message.message.is_none() && media.is_none() {
            Turn::fail(Failure::MissingEmbed)
        } else {
            let body = RequestParameter::build(message, media);
            Turn {
                progress: Progress::AwaitPublish { degraded },
                action: Action::Perform(
                    Request::Publish { url: PUBLISH_ENDPOINT.to_owned(), token, body },
                ),
            }
        }
    }

    /// Settles a completed publish exchange from its body as text and the
    /// `url` member read from the body. The status plays no part: a body
    /// with a `url` is a success, and a body without one is a
    /// `PublishFailure` that carries the whole body.
    pub fn accept_publish(
        body: String,
        url: Option<String>,
        degraded: Option<Failure>,
    ) -> (outcome: Outcome)
        ensures
            outcome@ == accept_publish(body@, url.deep_view(), degraded.deep_view()),
    {
        match url {
            Some(url) => Outcome::Published(PublishResult { url, degraded }),
            None => Outcome::Failed(Failure::PublishFailure { body }),
        }
    }

    /// Goes on from a step of token acquisition.
    pub fn after_token(message: &Msg, step: Step) -> (turn: Turn)
        ensures
            turn@ == after_token(message@, step@),
    {
        match step {
            Step::Ask(request) => Turn {
                progress: Progress::AwaitToken,
                action: Action::Perform(request),
            },
            Step::Failed(failure) => Turn::fail(failure),
            Step::Ready(token) => match &message.attachment {
                Some(url) => Turn {
                    progress: Progress::AwaitImage { token },
                    action: Action::Perform(Request::Fetch { url: url.clone() }),
                },
                None => Mastodon::publish_or_fail(token, message, None, None),
            },
        }
    }

    /// Goes on from a step of the upload, under `policy`.
    pub fn after_upload(
        token: String,
        message: &Msg,
        policy: UploadPolicy,
        step: Step,
    ) -> (turn: Turn)
        ensures
            turn@ == after_upload(token@, message@, policy, step@),
    {
        match step {
            Step::Ask(request) => {
                let progress = match &request {
                    Request::Fetch { .. } => Progress::AwaitImage { token },
                    _ => Progress::AwaitUpload { token },
                };
                Turn { progress, action: Action::Perform(request) }
            },
            Step::Ready(handle) => Mastodon::publish_or_fail(token, message, Some(handle), None),
            Step::Failed(failure) => match policy {
                UploadPolicy::TextOnly => if message.message.is_some() {
                    Mastodon::publish_or_fail(token, message, None, Some(failure))
                } else {
                    Turn::fail(failure)
                },
                UploadPolicy::Abort => Turn::fail(failure),
            },
        }
    }

    /// One step of relaying `message`.
    ///
    /// A relay begins at `Progress::Idle` with `Event::Begin`. Each turn
    /// either asks for one exchange, whose outcome is the next event, or
    /// ends the relay. The token is acquired first; the image, where the
    /// message has one, is fetched and uploaded next; the post comes last
    /// and carries the media handle exactly as the media endpoint gave it.
    /// Nothing is retried. Only the token is kept beyond the relay.
    pub fn send(
        &mut self,
        message: &Msg,
        policy: UploadPolicy,
        progress: Progress,
        event: Event,
    ) -> (turn: Turn)
        ensures
            (final(self)@, turn@) == old(self)@.send(message@, policy, progress@, event@),
            turn@.action matches ActionView::Perform(RequestView::Publish { body, .. })
                ==> body.status == message@.message,
            turn@.action matches ActionView::Perform(RequestView::Publish { body, .. })
                ==> body.status is Some || (body.media_ids matches Some(ids) && ids.len() == 1),
    {
        let begin = event.is_begin();
        match progress {
            Progress::Done => Turn::ignore(Progress::Done),
            Progress::Idle => if begin {
                self.begin(message, event)
            } else {
                Turn::ignore(Progress::Idle)
            },
            Progress::AwaitToken => if begin {
                Turn::ignore(Progress::AwaitToken)
            } else {
                self.begin(message, event)
            },
            Progress::AwaitImage { token } => if begin {
                Turn::ignore(Progress::AwaitImage { token })
            } else {
                match &message.attachment {
                    Some(url) => {
                        let step = Mastodon::upload_image(url, &token, Awaited::Image, event);
                        Mastodon::after_upload(token, message, policy, step)
                    },
                    None => Turn::fail(Failure::MissingEmbed),
                }
            },
            Progress::AwaitUpload { token } => if begin {
                Turn::ignore(Progress::AwaitUpload { token })
            } else {
                match &message.attachment {
                    Some(url) => {
                        let step = Mastodon::upload_image(url, &token, Awaited::Media, event);
                        Mastodon::after_upload(token, message, policy, step)
                    },
                    None => Turn::fail(Failure::MissingEmbed),
                }
            },
            Progress::AwaitPublish { degraded } => match event {
                Event::Response(response) => {
                    let body = response.text();
                    let url = text_field(body.as_str(), "url");
                    Turn {
                        progress: Progress::Done,
                        action: Action::Finish(Mastodon::accept_publish(body, url, degraded)),
                    }
                },
                Event::Unreachable { detail } => Turn::fail(
                    Failure::PublishFailure { body: detail },
                ),
                Event::Begin => Turn::ignore(Progress::AwaitPublish { degraded }),
            },
        }
    }

    /// Acquires the token and goes on from there, for a message that
    /// carries something to publish.
    fn begin(&mut self, message: &Msg, event: Event) -> (turn: Turn)
        ensures
            message@.publishable() ==> (final(self)@, turn@) == (
                old(self)@.get_token(event@).0,
                after_token(message@, old(self)@.get_token(event@).1),
            ),
            !message@.publishable() ==> (final(self)@, turn@) == (
                old(self)@,
                fail(FailureView::MissingEmbed),
            ),
    {
        if message.message.is_none() && message.attachment.is_none() {
            Turn::fail(Failure::MissingEmbed)
        } else {
            let step = self.get_token(event);
            Mastodon::after_token(message, step)
        }
    }
}

} // verus!

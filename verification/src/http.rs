//! The exchanges that a relay asks its caller to perform, and what comes back.

use crate::failure::{Failure, FailureView};
use crate::text::{decode_lossy, lossy_text};
use vstd::prelude::*;

verus! {

/// Where an authorization code is exchanged for a bearer token.
pub const TOKEN_ENDPOINT: &'static str = "https://mastodon.social/oauth/token";

/// Where media is uploaded.
pub const MEDIA_ENDPOINT: &'static str = "https://mastodon.social/api/v2/media";

/// Where a status is published.
pub const PUBLISH_ENDPOINT: &'static str = "https://mastodon.social/api/v1/statuses";

/// Whether `status` is in the success class.
pub open spec fn is_success(status: u16) -> bool {
    200 <= status < 300
}

/// A completed HTTP exchange: status line, declared length, and the raw body.
#[derive(Debug, Clone, PartialEq, Eq)]
pub struct HttpResponse {
    pub status: u16,
    pub content_length: Option<u64>,
    pub body: Vec<u8>,
}

/// The mathematical content of an [`HttpResponse`].
pub struct HttpResponseView {
    pub status: u16,
    pub content_length: Option<u64>,
    pub body: Seq<u8>,
}

impl HttpResponseView {
    /// The body read as text.
    pub open spec fn text(self) -> Seq<char> {
        lossy_text(self.body)
    }
}

impl View for HttpResponse {
    type V = HttpResponseView;

    open spec fn view(&self) -> HttpResponseView {
        HttpResponseView {
            status: self.status,
            content_length: self.content_length,
            body: self.body@,
        }
    }
}

impl HttpResponse {
    /// Whether the status is in the success class.
    pub fn is_success(&self) -> (success: bool)
        ensures
            success == is_success(self.status),
    {
        200 <= self.status && self.status < 300
    }

    /// The body read as text. A body that is valid UTF-8 reads as the text
    /// it encodes; in any other, what is invalid reads as U+FFFD.
    pub fn text(&self) -> (text: String)
        ensures
            text@ == self@.text(),
    {
        decode_lossy(&self.body)
    }
}

/// What the caller reports to a relay.
#[derive(Debug, Clone, PartialEq, Eq)]
pub enum Event {
    /// Nothing has happened yet: the relay is to begin.
    Begin,
    /// The exchange that was asked for completed.
    Response(HttpResponse),
    /// The exchange that was asked for did not complete.
    Unreachable { detail: String },
}

/// The mathematical content of an [`Event`].
pub enum EventView {
    Begin,
    Response(HttpResponseView),
    Unreachable { detail: Seq<char> },
}

impl Event {
    /// Whether the event is `Begin`.
    pub fn is_begin(&self) -> (begin: bool)
        ensures
            begin == (self@ is Begin),
    {
        match self {
            Event::Begin => true,
            _ => false,
        }
    }
}

impl View for Event {
    type V = EventView;

    open spec fn view(&self) -> EventView {
        match self {
            Event::Begin => EventView::Begin,
            Event::Response(response) => EventView::Response(response@),
            Event::Unreachable { detail } => EventView::Unreachable { detail: detail@ },
        }
    }
}

/// The single part of a multipart upload.
#[derive(Debug, Clone, PartialEq, Eq)]
pub struct Part {
    pub name: String,
    pub file_name: String,
    pub mime: String,
    pub bytes: Vec<u8>,
}

/// The mathematical content of a [`Part`].
pub struct PartView {
    pub name: Seq<char>,
    pub file_name: Seq<char>,
    pub mime: Seq<char>,
    pub bytes: Seq<u8>,
}

impl View for Part {
    type V = PartView;

    open spec fn view(&self) -> PartView {
        PartView {
            name: self.name@,
            file_name: self.file_name@,
            mime: self.mime@,
            bytes: self.bytes@,
        }
    }
}

/// The part that carries `bytes` as the uploaded file. The content type is
/// declared, not derived from the bytes.
pub open spec fn image_part(bytes: Seq<u8>) -> PartView {
    PartView { name: "file"@, file_name: "image.png"@, mime: "image/png"@, bytes }
}

/// The body of a publish request. A field that is `None` is left out of
/// the serialized body.
#[derive(Debug, Clone, PartialEq, Eq)]
pub struct RequestParameter {
    pub status: Option<String>,
    pub media_ids: Option<Vec<String>>,
    pub visibility: String,
}

/// The mathematical content of a [`RequestParameter`].
pub struct RequestParameterView {
    pub status: Option<Seq<char>>,
    pub media_ids: Option<Seq<Seq<char>>>,
    pub visibility: Seq<char>,
}

impl View for RequestParameter {
    type V = RequestParameterView;

    open spec fn view(&self) -> RequestParameterView {
        RequestParameterView {
            status: self.status.deep_view(),
            media_ids: self.media_ids.deep_view(),
            visibility: self.visibility@,
        }
    }
}

/// One exchange for the caller to perform.
#[derive(Debug, Clone, PartialEq, Eq)]
pub enum Request {
    /// POST `form`, form-encoded, to `url`.
    Token { url: String, form: Vec<(String, String)> },
    /// GET `url`, without authentication.
    Fetch { url: String },
    /// POST `part` as a multipart body to `url`, with `token` as bearer.
    Upload { url: String, token: String, part: Part },
    /// POST `body` as JSON to `url`, with `token` as bearer.
    Publish { url: String, token: String, body: RequestParameter },
}

/// The mathematical content of a [`Request`].
pub enum RequestView {
    Token { url: Seq<char>, form: Seq<(Seq<char>, Seq<char>)> },
    Fetch { url: Seq<char> },
    Upload { url: Seq<char>, token: Seq<char>, part: PartView },
    Publish { url: Seq<char>, token: Seq<char>, body: RequestParameterView },
}

impl View for Request {
    type V = RequestView;

    open spec fn view(&self) -> RequestView {
        match self {
            Request::Token { url, form } => RequestView::Token {
                url: url@,
                form: form.deep_view(),
            },
            Request::Fetch { url } => RequestView::Fetch { url: url@ },
            Request::Upload { url, token, part } => RequestView::Upload {
                url: url@,
                token: token@,
                part: part@,
            },
            Request::Publish { url, token, body } => RequestView::Publish {
                url: url@,
                token: token@,
                body: body@,
            },
        }
    }
}

/// What one stage of a relay yields: its value, an exchange to perform
/// first, or a failure.
#[derive(Debug, Clone, PartialEq, Eq)]
pub enum Step {
    Ready(String),
    Ask(Request),
    Failed(Failure),
}

/// The mathematical content of a [`Step`].
pub enum StepView {
    Ready(Seq<char>),
    Ask(RequestView),
    Failed(FailureView),
}

impl View for Step {
    type V = StepView;

    open spec fn view(&self) -> StepView {
        match self {
            Step::Ready(value) => StepView::Ready(value@),
            Step::Ask(request) => StepView::Ask(request@),
            Step::Failed(failure) => StepView::Failed(failure@),
        }
    }
}

/// A published status. `degraded` holds the upload failure that made the
/// post text-only, where that happened.
#[derive(Debug, Clone, PartialEq, Eq)]
pub struct PublishResult {
    pub url: String,
    pub degraded: Option<Failure>,
}

/// The mathematical content of a [`PublishResult`].
pub struct PublishResultView {
    pub url: Seq<char>,
    pub degraded: Option<FailureView>,
}

impl View for PublishResult {
    type V = PublishResultView;

    open spec fn view(&self) -> PublishResultView {
        PublishResultView { url: self.url@, degraded: self.degraded.deep_view() }
    }
}

/// How a relay ended.
#[derive(Debug, Clone, PartialEq, Eq)]
pub enum Outcome {
    Published(PublishResult),
    Failed(Failure),
}

/// The mathematical content of an [`Outcome`].
pub enum OutcomeView {
    Published(PublishResultView),
    Failed(FailureView),
}

impl View for Outcome {
    type V = OutcomeView;

    open spec fn view(&self) -> OutcomeView {
        match self {
            Outcome::Published(result) => OutcomeView::Published(result@),
            Outcome::Failed(failure) => OutcomeView::Failed(failure@),
        }
    }
}

/// What a relay asks of its caller after an event.
#[derive(Debug, Clone, PartialEq, Eq)]
pub enum Action {
    /// Perform this exchange and report its outcome.
    Perform(Request),
    /// The relay has ended.
    Finish(Outcome),
    /// The event was not awaited: nothing changed and nothing is to be done.
    Ignore,
}

/// The mathematical content of an [`Action`].
pub enum ActionView {
    Perform(RequestView),
    Finish(OutcomeView),
    Ignore,
}

impl View for Action {
    type V = ActionView;

    open spec fn view(&self) -> ActionView {
        match self {
            Action::Perform(request) => ActionView::Perform(request@),
            Action::Finish(outcome) => ActionView::Finish(outcome@),
            Action::Ignore => ActionView::Ignore,
        }
    }
}

} // verus!

//! The ways in which a relay can fail, and how each is put into words.

use crate::text::{decimal, decimal_text};
use vstd::prelude::*;
use vstd::string::StringExecFns;

verus! {

/// A structured failure of one relay stage.
#[derive(Debug, Clone, PartialEq, Eq)]
pub enum Failure {
    /// The message carries nothing to publish.
    MissingEmbed,
    /// The token endpoint refused the exchange, or could not be reached.
    AuthFailure { body: String },
    /// A response that should have carried a JSON string member did not.
    MalformedResponse { body: String },
    /// The image could not be fetched. `status` is absent when no response arrived.
    FetchFailure { status: Option<u16>, body: String },
    /// The media endpoint refused the upload. `status` is absent when no response arrived.
    UploadFailure { status: Option<u16>, content_length: Option<u64>, body: String },
    /// The publish endpoint's response names no URL.
    PublishFailure { body: String },
}

/// The mathematical content of a [`Failure`].
pub enum FailureView {
    MissingEmbed,
    AuthFailure { body: Seq<char> },
    MalformedResponse { body: Seq<char> },
    FetchFailure { status: Option<u16>, body: Seq<char> },
    UploadFailure { status: Option<u16>, content_length: Option<u64>, body: Seq<char> },
    PublishFailure { body: Seq<char> },
}

impl View for Failure {
    type V = FailureView;

    open spec fn view(&self) -> FailureView {
        match self {
            Failure::MissingEmbed => FailureView::MissingEmbed,
            Failure::AuthFailure { body } => FailureView::AuthFailure { body: body@ },
            Failure::MalformedResponse { body } => FailureView::MalformedResponse { body: body@ },
            Failure::FetchFailure { status, body } => FailureView::FetchFailure {
                status: *status,
                body: body@,
            },
            Failure::UploadFailure { status, content_length, body } => FailureView::UploadFailure {
                status: *status,
                content_length: *content_length,
                body: body@,
            },
            Failure::PublishFailure { body } => FailureView::PublishFailure { body: body@ },
        }
    }
}

impl DeepView for Failure {
    type V = FailureView;

    open spec fn deep_view(&self) -> FailureView {
        self@
    }
}

/// How a status code reads in a diagnostic.
pub open spec fn status_note(status: Option<u16>) -> Seq<char> {
    match status {
        Some(code) => " (status "@ + decimal(code as nat) + ")"@,
        None => " (no response)"@,
    }
}

/// How a content length reads in a diagnostic.
pub open spec fn length_note(content_length: Option<u64>) -> Seq<char> {
    match content_length {
        Some(length) => " (content length "@ + decimal(length as nat) + ")"@,
        None => Seq::empty(),
    }
}

impl FailureView {
    /// The name of the failure kind.
    pub open spec fn kind(self) -> Seq<char> {
        match self {
            FailureView::MissingEmbed => "MissingEmbed"@,
            FailureView::AuthFailure { .. } => "AuthFailure"@,
            FailureView::MalformedResponse { .. } => "MalformedResponse"@,
            FailureView::FetchFailure { .. } => "FetchFailure"@,
            FailureView::UploadFailure { .. } => "UploadFailure"@,
            FailureView::PublishFailure { .. } => "PublishFailure"@,
        }
    }

    /// What follows the kind's name in the diagnostic.
    pub open spec fn detail(self) -> Seq<char> {
        match self {
            FailureView::MissingEmbed => ": the message carries nothing to publish"@,
            FailureView::AuthFailure { body } => ": "@ + body,
            FailureView::MalformedResponse { body } => ": "@ + body,
            FailureView::FetchFailure { status, body } => status_note(status) + ": "@ + body,
            FailureView::UploadFailure { status, content_length, body } => status_note(status)
                + length_note(content_length) + ": "@ + body,
            FailureView::PublishFailure { body } => ": "@ + body,
        }
    }

    /// The diagnostic: the kind's name, then the detail.
    pub open spec fn describe(self) -> Seq<char> {
        self.kind() + self.detail()
    }
}

fn status_text(status: Option<u16>) -> (text: String)
    ensures
        text@ == status_note(status),
{
    match status {
        Some(code) => {
            let mut text = " (status ".to_owned();
            let digits = decimal_text(code as u64);
            text.append(digits.as_str());
            text.append(")");
            text
        },
        None => " (no response)".to_owned(),
    }
}

fn length_text(content_length: Option<u64>) -> (text: String)
    ensures
        text@ == length_note(content_length),
{
    match content_length {
        Some(length) => {
            let mut text = " (content length ".to_owned();
            let digits = decimal_text(length);
            text.append(digits.as_str());
            text.append(")");
            text
        },
        None => String::new(),
    }
}

impl Failure {
    /// The name of the failure kind.
    pub fn kind(&self) -> (name: &'static str)
        ensures
            name@ == self@.kind(),
    {
        match self {
            Failure::MissingEmbed => "MissingEmbed",
            Failure::AuthFailure { .. } => "AuthFailure",
            Failure::MalformedResponse { .. } => "MalformedResponse",
            Failure::FetchFailure { .. } => "FetchFailure",
            Failure::UploadFailure { .. } => "UploadFailure",
            Failure::PublishFailure { .. } => "PublishFailure",
        }
    }

    /// Puts the failure into words: the name of its kind, then what it carries.
    pub fn describe(&self) -> (text: String)
        ensures
            text@ == self@.describe(),
    {
        let mut text = self.kind().to_owned();
        match self {
            Failure::MissingEmbed => {
                text.append(": the message carries nothing to publish");
            },
            Failure::AuthFailure { body } => {
                text.append(": ");
                text.append(body.as_str());
            },
            Failure::MalformedResponse { body } => {
                text.append(": ");
                text.append(body.as_str());
            },
            Failure::FetchFailure { status, body } => {
                let note = status_text(*status);
                text.append(note.as_str());
                text.append(": ");
                text.append(body.as_str());
            },
            Failure::UploadFailure { status, content_length, body } => {
                let note = status_text(*status);
                text.append(note.as_str());
                let length = length_text(*content_length);
                text.append(length.as_str());
                text.append(": ");
                text.append(body.as_str());
            },
            Failure::PublishFailure { body } => {
                text.append(": ");
                text.append(body.as_str());
            },
        }
        assert(text@ =~= self@.describe());
        text
    }
}

} // verus!

//! Uploading an attached image: fetch it, then post it to the media endpoint.

use crate::failure::{Failure, FailureView};
use crate::http::{
    image_part, is_success, Event, EventView, Part, Request, RequestView, Step, StepView,
    MEDIA_ENDPOINT,
};
use crate::json::{json_text_field, text_field};
use crate::mastodon::Mastodon;
use vstd::prelude::*;

verus! {

/// Which exchange of an upload an event reports on.
#[derive(Debug, Clone, Copy, PartialEq, Eq, Structural)]
pub enum Awaited {
    /// The unauthenticated GET of the image.
    Image,
    /// The authenticated POST to the media endpoint.
    Media,
}

/// The exchange that fetches the image at `url`.
pub open spec fn fetch_request(url: Seq<char>) -> RequestView {
    RequestView::Fetch { url }
}

/// The exchange that posts `bytes` to the media endpoint with `token` as bearer.
pub open spec fn media_request(token: Seq<char>, bytes: Seq<u8>) -> RequestView {
    RequestView::Upload { url: MEDIA_ENDPOINT@, token, part: image_part(bytes) }
}

/// What a completed media POST means, given the status, the declared
/// length, the body as text and the `id` member read from it: status 200
/// with the member yields the media handle, status 200 without it is a
/// `MalformedResponse`, and any other status is an `UploadFailure`.
pub open spec fn accept_media(
    status: u16,
    content_length: Option<u64>,
    body: Seq<char>,
    id: Option<Seq<char>>,
) -> StepView {
    if status == 200 {
        match id {
            Some(handle) => StepView::Ready(handle),
            None => StepView::Failed(FailureView::MalformedResponse { body }),
        }
    } else {
        StepView::Failed(
            FailureView::UploadFailure { status: Some(status), content_length, body },
        )
    }
}

/// One step of an upload. `Begin` asks for the image; the fetched image is
/// posted as it came, or the fetch fails with `FetchFailure`; the outcome
/// of the post is settled by [`accept_media`].
pub open spec fn upload_image(
    url: Seq<char>,
    token: Seq<char>,
    awaited: Awaited,
    event: EventView,
) -> StepView {
    match event {
        EventView::Begin => StepView::Ask(fetch_request(url)),
        EventView::Response(response) => match awaited {
            Awaited::Image => if is_success(response.status) {
                StepView::Ask(media_request(token, response.body))
            } else {
                StepView::Failed(
                    FailureView::FetchFailure {
                        status: Some(response.status),
                        body: response.text(),
                    },
                )
            },
            Awaited::Media => accept_media(
                response.status,
                response.content_length,
                response.text(),
                json_text_field(response.text(), "id"@),
            ),
        },
        EventView::Unreachable { detail } => match awaited {
            Awaited::Image => StepView::Failed(
                FailureView::FetchFailure { status: None, body: detail },
            ),
            Awaited::Media => StepView::Failed(
                FailureView::UploadFailure { status: None, content_length: None, body: detail },
            ),
        },
    }
}

impl Mastodon {
    /// The exchange that posts `bytes` to the media endpoint: one part named
    /// `file`, declared as `image.png` of type `image/png`, with `token` as
    /// bearer. The bytes are passed on unread.
    pub fn media_request(token: &str, bytes: Vec<u8>) -> (request: Request)
        ensures
            request@ == media_request(token@, bytes@),
    {
        let part = Part {
            name: "file".to_owned(),
            file_name: "image.png".to_owned(),
            mime: "image/png".to_owned(),
            bytes,
        };
        Request::Upload { url: MEDIA_ENDPOINT.to_owned(), token: token.to_owned(), part }
    }

    /// Settles a completed media POST from its status, its declared length,
    /// its body as text and the `id` member read from the body.
    pub fn accept_media(
        status: u16,
        content_length: Option<u64>,
        body: String,
        id: Option<String>,
    ) -> (step: Step)
        ensures
            step@ == accept_media(status, content_length, body@, id.deep_view()),
    {
        if status == 200 {
            match id {
                Some(handle) => Step::Ready(handle),
                None => Step::Failed(Failure::MalformedResponse { body }),
            }
        } else {
            Step::Failed(Failure::UploadFailure { status: Some(status), content_length, body })
        }
    }

    /// One step of uploading the image at `img_url` with `token` as bearer.
    ///
    /// `Begin` asks for the image. When `event` reports on the image, a
    /// success asks for the media POST with the fetched bytes and anything
    /// else is a `FetchFailure`. When it reports on the media POST, status
    /// 200 with an `id` yields the media handle, status 200 without one is a
    /// `MalformedResponse`, and anything else is an `UploadFailure`.
    pub fn upload_image(
        img_url: &String,
        token: &String,
        awaited: Awaited,
        event: Event,
    ) -> (step: Step)
        ensures
            step@ == upload_image(img_url@, token@, awaited, event@),
    {
        match event {
            Event::Begin => Step::Ask(Request::Fetch { url: img_url.clone() }),
            Event::Response(response) => match awaited {
                Awaited::Image => if response.is_success() {
                    Step::Ask(Mastodon::media_request(token.as_str(), response.body))
                } else {
                    let body = response.text();
                    Step::Failed(Failure::FetchFailure { status: Some(response.status), body })
                },
                Awaited::Media => {
                    let body = response.text();
                    let id = text_field(body.as_str(), "id");
                    Mastodon::accept_media(response.status, response.content_length, body, id)
                },
            },
            Event::Unreachable { detail } => match awaited {
                Awaited::Image => Step::Failed(Failure::FetchFailure { status: None, body: detail }),
                Awaited::Media => Step::Failed(
                    Failure::UploadFailure { status: None, content_length: None, body: detail },
                ),
            },
        }
    }
}

} // verus!

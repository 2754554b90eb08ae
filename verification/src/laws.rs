//! What holds of every relay, whatever the endpoints answer.

use crate::failure::FailureView;
use crate::http::{is_success, ActionView, EventView, HttpResponseView, RequestView, StepView};
use crate::json::json_text_field;
use crate::mastodon::MastodonView;
use crate::message::MsgView;
use crate::publish::{
    after_upload, awaits, fail, ignore, publish_request, ProgressView, UploadPolicy,
};
use crate::text::lossy_text;
use crate::upload::{upload_image, Awaited};
use vstd::prelude::*;
use vstd::utf8::{encode_utf8, encode_utf8_decode_utf8, encode_utf8_valid_utf8};

verus! {

/// A message that has an image and no text is never published otherwise
/// than without a status and with exactly one media id: whenever a step of
/// its relay asks for the publish exchange, the body has that shape.
pub proof fn lemma_image_only_post(
    store: MastodonView,
    message: MsgView,
    policy: UploadPolicy,
    progress: ProgressView,
    event: EventView,
)
    requires
        message.message is None,
        message.attachment is Some,
    ensures
        store.send(message, policy, progress, event).1.action matches ActionView::Perform(
            RequestView::Publish { body, .. },
        ) ==> body.status is None && body.media_ids is Some && body.media_ids.unwrap().len() == 1,
{
}

/// The status of a post is the text of the message exactly, whether or not
/// the message has an image and whether or not its upload succeeded:
/// whenever a step of a relay asks for the publish exchange, the status in
/// the body is the message's text.
pub proof fn lemma_status_is_text(
    store: MastodonView,
    message: MsgView,
    policy: UploadPolicy,
    progress: ProgressView,
    event: EventView,
)
    ensures
        store.send(message, policy, progress, event).1.action matches ActionView::Perform(
            RequestView::Publish { body, .. },
        ) ==> body.status == message.message,
{
}

/// A cached token is handed out again and again: with a usable token in
/// the cache, a step of token acquisition yields that token, asks for no
/// exchange and leaves the credentials as they were, and so does the step
/// after it, whatever the two events are.
pub proof fn lemma_cached_token_is_reused(store: MastodonView, first: EventView, second: EventView)
    requires
        store.usable_token() is Some,
    ensures
        store.get_token(first) == (store, StepView::Ready(store.usable_token().unwrap())),
        store.get_token(first).0.get_token(second) == store.get_token(first),
{
}

/// A token that a successful exchange brought is cached: the step after
/// it is a cache hit and yields the same token, provided the token is not
/// empty.
pub proof fn lemma_acquired_token_is_cached(
    store: MastodonView,
    status: u16,
    body: Seq<char>,
    token: Seq<char>,
    next: EventView,
)
    requires
        store.accept_token(status, body, Some(token)).1 == StepView::Ready(token),
        token.len() > 0,
    ensures
        store.accept_token(status, body, Some(token)).0.get_token(next).1 == StepView::Ready(
            token,
        ),
{
}

/// A body that encodes a text reads back as that text.
pub proof fn lemma_encoded_text_reads_back(text: Seq<char>)
    ensures
        lossy_text(encode_utf8(text)) == text,
{
    encode_utf8_valid_utf8(text);
    encode_utf8_decode_utf8(text);
}

/// A refused token exchange fails with the response's body, whole and
/// unchanged, and caches nothing: for credentials without a usable token,
/// any status outside the success class and any text as body, the step is
/// an `AuthFailure` that carries that text.
pub proof fn lemma_refusal_carries_the_body(
    store: MastodonView,
    status: u16,
    content_length: Option<u64>,
    body: Seq<char>,
)
    requires
        store.usable_token() is None,
        !is_success(status),
    ensures
        store.get_token(
            EventView::Response(
                HttpResponseView { status, content_length, body: encode_utf8(body) },
            ),
        ) == (store, StepView::Failed(FailureView::AuthFailure { body })),
{
    lemma_encoded_text_reads_back(body);
}

/// A failed token exchange caches nothing.
pub proof fn lemma_failed_exchange_caches_nothing(store: MastodonView, event: EventView)
    ensures
        store.get_token(event).1 is Failed ==> store.get_token(event).0 == store,
{
}

/// The media handle that an upload yields is the one that the post
/// carries: when the media endpoint's answer yields a handle, the same
/// step asks for the publish exchange, and the body's media ids hold that
/// handle and nothing else.
pub proof fn lemma_media_handle_round_trip(
    store: MastodonView,
    message: MsgView,
    policy: UploadPolicy,
    token: Seq<char>,
    event: EventView,
    handle: Seq<char>,
)
    requires
        message.attachment is Some,
        !(event is Begin),
    ensures
        upload_image(message.attachment.unwrap(), token, Awaited::Media, event) == StepView::Ready(
            handle,
        ) ==> store.send(message, policy, ProgressView::AwaitUpload { token }, event).1.action
            == ActionView::Perform(publish_request(token, message, Some(handle))),
        publish_request(token, message, Some(handle)) matches RequestView::Publish { body, .. }
            && body.media_ids == Some(seq![handle]),
        after_upload(token, message, policy, StepView::Ready(handle)).action == ActionView::Perform(
            publish_request(token, message, Some(handle)),
        ),
{
}

/// The media endpoint succeeds with status 200 only: for any other status
/// and any text as body, the step is an `UploadFailure` that carries the
/// status, the declared length and that text.
pub proof fn lemma_media_refusal_carries_the_response(
    url: Seq<char>,
    token: Seq<char>,
    status: u16,
    content_length: Option<u64>,
    body: Seq<char>,
)
    requires
        status != 200,
    ensures
        upload_image(
            url,
            token,
            Awaited::Media,
            EventView::Response(
                HttpResponseView { status, content_length, body: encode_utf8(body) },
            ),
        ) == StepView::Failed(
            FailureView::UploadFailure { status: Some(status), content_length, body },
        ),
{
    lemma_encoded_text_reads_back(body);
}

/// A publish response that names no URL is a `PublishFailure` that carries
/// the whole body, whatever its status, and ends the relay.
pub proof fn lemma_post_without_url_fails(
    store: MastodonView,
    message: MsgView,
    policy: UploadPolicy,
    degraded: Option<FailureView>,
    response: HttpResponseView,
)
    ensures
        json_text_field(response.text(), "url"@) is None ==> store.send(
            message,
            policy,
            ProgressView::AwaitPublish { degraded },
            EventView::Response(response),
        ) == (store, fail(FailureView::PublishFailure { body: response.text() })),
{
}

/// Under the `Abort` policy a failed upload ends the relay with the
/// upload's failure: no publish exchange is asked for.
pub proof fn lemma_abort_never_publishes(token: Seq<char>, message: MsgView, step: StepView)
    requires
        step is Failed,
    ensures
        after_upload(token, message, UploadPolicy::Abort, step) == fail(step->Failed_0),
{
}

/// An event that a relay does not wait for changes nothing: the
/// credentials and the progress stay as they are and nothing is asked for.
/// An event that it does wait for is never ignored.
pub proof fn lemma_only_awaited_events_count(
    store: MastodonView,
    message: MsgView,
    policy: UploadPolicy,
    progress: ProgressView,
    event: EventView,
)
    ensures
        !awaits(progress, event) ==> store.send(message, policy, progress, event) == (
            store,
            ignore(progress),
        ),
        awaits(progress, event) ==> !(store.send(message, policy, progress, event).1.action
            is Ignore),
{
}

/// A relay that asks for an exchange waits for its outcome, and a relay
/// that ends is done: after a turn that asks for an exchange, every
/// outcome is awaited and `Begin` is not; after a turn that ends the
/// relay, nothing is awaited.
pub proof fn lemma_turns_follow_the_protocol(
    store: MastodonView,
    message: MsgView,
    policy: UploadPolicy,
    progress: ProgressView,
    event: EventView,
    next: EventView,
)
    ensures
        ({
            let turn = store.send(message, policy, progress, event).1;
            &&& turn.action is Perform ==> (awaits(turn.progress, next) <==> !(next is Begin))
            &&& turn.action is Finish ==> turn.progress is Done && !awaits(turn.progress, next)
        }),
{
}

/// Every awaited event brings a relay nearer to its end, so a relay ends
/// after five awaited events at most: `Begin` and the outcomes of four
/// exchanges.
pub proof fn lemma_relay_advances(
    store: MastodonView,
    message: MsgView,
    policy: UploadPolicy,
    progress: ProgressView,
    event: EventView,
)
    requires
        awaits(progress, event),
    ensures
        store.send(message, policy, progress, event).1.progress.remaining() < progress.remaining(),
{
}

/// Nothing is retried: the token exchange is asked for only at the
/// beginning of a relay, and the image is asked for only by the turn that
/// has just obtained the token.
pub proof fn lemma_nothing_is_asked_twice(
    store: MastodonView,
    message: MsgView,
    policy: UploadPolicy,
    progress: ProgressView,
    event: EventView,
)
    ensures
        ({
            let action = store.send(message, policy, progress, event).1.action;
            &&& action matches ActionView::Perform(RequestView::Token { .. }) ==> progress is Idle
            &&& action matches ActionView::Perform(RequestView::Fetch { .. }) ==> (progress
                is Idle || progress is AwaitToken)
            &&& action matches ActionView::Perform(RequestView::Upload { .. }) ==> progress
                is AwaitImage
        }),
{
}

/// Only the token outlives a step: the credentials after a step are the
/// credentials before it, but for a token that the step may have cached.
pub proof fn lemma_only_the_token_changes(
    store: MastodonView,
    message: MsgView,
    policy: UploadPolicy,
    progress: ProgressView,
    event: EventView,
)
    ensures
        ({
            let after = store.send(message, policy, progress, event).0;
            after == store || (after.token matches Some(token) && after == store.with_token(token))
        }),
{
}

} // verus!

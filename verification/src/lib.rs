//! Relays a captured chat message to a social-network publishing endpoint.
//!
//! The crate performs no I/O. A relay is a sequence of steps: each step
//! takes an [`Event`] and returns an [`Action`], which either asks the
//! caller to perform one HTTP exchange or ends the relay. The caller
//! performs the exchange and reports its outcome as the next event.
//!
//! - [`message`] captures text and image from a raw inbound message.
//! - [`mastodon`] holds the credentials and acquires the bearer token.
//! - [`upload`] fetches an attached image and posts it to the media endpoint.
//! - [`publish`] sequences token, upload and post.
//! - [`pusher`] holds one relay in progress, built from a [`config`].
//! - [`handler`] filters inbound messages and words the reply.
//! - [`laws`] states what holds of every relay.

pub mod config;
pub mod failure;
pub mod handler;
pub mod http;
pub mod json;
pub mod laws;
pub mod mastodon;
pub mod message;
pub mod publish;
pub mod pusher;
pub mod text;
pub mod upload;

pub use config::Config;
pub use failure::Failure;
pub use handler::{Handler, Intake};
pub use http::{
    Action, Event, HttpResponse, Outcome, Part, PublishResult, Request, RequestParameter, Step,
};
pub use mastodon::Mastodon;
pub use message::{Embed, Msg, RawMessage};
pub use publish::{Progress, Turn, UploadPolicy};
pub use pusher::MessagePusher;
pub use upload::Awaited;

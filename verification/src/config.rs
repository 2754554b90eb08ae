//! What a relay is configured with.

use crate::mastodon::Mastodon;
use crate::publish::UploadPolicy;
use vstd::prelude::*;

verus! {

/// What the relay is configured with.
#[derive(Debug, Clone, PartialEq, Eq)]
pub struct Config {
    /// The chat gateway's own token.
    pub token: String,
    /// The credentials for the publishing endpoints.
    pub mastodon: Mastodon,
    /// The author whose messages are relayed.
    pub relay_author: u64,
    /// The author whose messages are logged for diagnosis, never relayed on that account.
    pub log_author: u64,
    /// What to do when an image cannot be uploaded.
    pub upload_policy: UploadPolicy,
}

} // verus!

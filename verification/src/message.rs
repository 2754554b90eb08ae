//! Captured messages and their extraction from raw inbound messages.

use crate::failure::{Failure, FailureView};
use crate::text::copy_text;
use vstd::prelude::*;

verus! {

/// A rich-content block attached to an inbound message.
#[derive(Debug, Clone, PartialEq, Eq)]
pub struct Embed {
    pub description: Option<String>,
    pub image_url: Option<String>,
}

/// The mathematical content of an [`Embed`].
pub struct EmbedView {
    pub description: Option<Seq<char>>,
    pub image_url: Option<Seq<char>>,
}

impl View for Embed {
    type V = EmbedView;

    open spec fn view(&self) -> EmbedView {
        EmbedView {
            description: self.description.deep_view(),
            image_url: self.image_url.deep_view(),
        }
    }
}

impl DeepView for Embed {
    type V = EmbedView;

    open spec fn deep_view(&self) -> EmbedView {
        self@
    }
}

/// One inbound message as the chat gateway delivered it.
#[derive(Debug, Clone, PartialEq, Eq)]
pub struct RawMessage {
    pub author_id: u64,
    pub channel_id: u64,
    pub content: String,
    pub embeds: Vec<Embed>,
}

/// The mathematical content of a [`RawMessage`].
pub struct RawMessageView {
    pub author_id: u64,
    pub channel_id: u64,
    pub content: Seq<char>,
    pub embeds: Seq<EmbedView>,
}

impl View for RawMessage {
    type V = RawMessageView;

    open spec fn view(&self) -> RawMessageView {
        RawMessageView {
            author_id: self.author_id,
            channel_id: self.channel_id,
            content: self.content@,
            embeds: self.embeds.deep_view(),
        }
    }
}

impl RawMessageView {
    /// The description of the first embed, if there is one and it has one.
    pub open spec fn text(self) -> Option<Seq<char>> {
        if self.embeds.len() > 0 {
            self.embeds[0].description
        } else {
            None
        }
    }

    /// The image URL of the first embed, if there is one and it has one.
    pub open spec fn image(self) -> Option<Seq<char>> {
        if self.embeds.len() > 0 {
            self.embeds[0].image_url
        } else {
            None
        }
    }

    /// The captured message: text and image as separate fields. Extraction
    /// fails when there is no embed, or when the first embed carries neither.
    pub open spec fn captured(self) -> Result<MsgView, FailureView> {
        if self.text() is None && self.image() is None {
            Err(FailureView::MissingEmbed)
        } else {
            Ok(MsgView { message: self.text(), attachment: self.image() })
        }
    }
}

/// A message ready for publishing: optional text and an optional image reference.
#[derive(Debug, Clone, PartialEq, Eq)]
pub struct Msg {
    pub message: Option<String>,
    pub attachment: Option<String>,
}

/// The mathematical content of a [`Msg`].
pub struct MsgView {
    pub message: Option<Seq<char>>,
    pub attachment: Option<Seq<char>>,
}

impl MsgView {
    /// Whether the message carries anything to publish.
    pub open spec fn publishable(self) -> bool {
        self.message is Some || self.attachment is Some
    }
}

impl View for Msg {
    type V = MsgView;

    open spec fn view(&self) -> MsgView {
        MsgView { message: self.message.deep_view(), attachment: self.attachment.deep_view() }
    }
}

impl Msg {
    /// A message that carries nothing yet.
    pub fn new() -> (msg: Msg)
        ensures
            msg@ == (MsgView { message: None, attachment: None }),
    {
        Msg { message: None, attachment: None }
    }

    /// Captures `msg`: the description of its first embed as text, the image
    /// URL of the same embed as attachment. Fails with `MissingEmbed` when
    /// `msg` has no embed, and when its first embed carries neither.
    pub fn build_message(&self, msg: &RawMessage) -> (captured: Result<Msg, Failure>)
        ensures
            match captured {
                Ok(m) => msg@.captured() == Ok::<MsgView, FailureView>(m@),
                Err(f) => msg@.captured() == Err::<MsgView, FailureView>(f@),
            },
            captured matches Ok(m) ==> m@.publishable(),
            msg@.embeds.len() == 0 ==> (captured matches Err(f) && f@ == FailureView::MissingEmbed),
    {
        let txt = self.get_content(msg);
        let image = self.get_image(msg);
        if txt.is_none() && image.is_none() {
            Err(Failure::MissingEmbed)
        } else {
            Ok(Msg { message: txt, attachment: image })
        }
    }

    /// The description of the first embed of `msg`; absent when `msg` has no
    /// embed or the embed has no description.
    pub fn get_content(&self, msg: &RawMessage) -> (text: Option<String>)
        ensures
            text.deep_view() == msg@.text(),
    {
        if msg.embeds.len() > 0 {
            copy_text(&msg.embeds[0].description)
        } else {
            None
        }
    }

    /// The image URL of the first embed of `msg`; absent when `msg` has no
    /// embed or the embed has no image.
    pub fn get_image(&self, msg: &RawMessage) -> (url: Option<String>)
        ensures
            url.deep_view() == msg@.image(),
    {
        if msg.embeds.len() > 0 {
            copy_text(&msg.embeds[0].image_url)
        } else {
            None
        }
    }
}

} // verus!

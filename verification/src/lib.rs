//! A declarative slash-command framework for a chat platform.
//!
//! Commands are registered with the platform ahead of time; incoming
//! interactions are routed to the registered handler, and replies are either
//! immediate or deferred (an acknowledgement now, the real content later).
//! Interactions can arrive over a persistent event stream or as signed
//! webhook requests, which are verified before processing.

use vstd::prelude::*;

pub mod command;
pub mod handler;
pub mod interaction;
pub mod option_types;
pub mod platform;
pub mod text;
pub mod webhook;

verus! {

use twilight_model::application::component::Component;
use twilight_model::channel::embed::Embed;
use twilight_model::channel::message::AllowedMentions;

/// The payload of a reply to an interaction: the message content together
/// with the rich pieces (embeds, components, mention filter) that are
/// carried through to the platform untouched. In place of the platform's
/// message-flag bit set, `ephemeral` records the only flag this library
/// ever sets: `None` when no flags are given at all, `Some(e)` when flags
/// are given and `e` says whether the reply is visible only to its invoker.
#[derive(Debug, PartialEq)]
pub struct CallbackData {
    pub allowed_mentions: Option<AllowedMentions>,
    pub components: Option<Vec<Component>>,
    pub content: Option<String>,
    pub embeds: Vec<Embed>,
    pub ephemeral: Option<bool>,
    pub tts: Option<bool>,
}

/// The mathematical content of a reply payload: the same fields with the
/// collections read as sequences.
#[verifier::ext_equal]
pub struct CallbackDataView {
    pub allowed_mentions: Option<AllowedMentions>,
    pub components: Option<Seq<Component>>,
    pub content: Option<Seq<char>>,
    pub embeds: Seq<Embed>,
    pub ephemeral: Option<bool>,
    pub tts: Option<bool>,
}

impl View for CallbackData {
    type V = CallbackDataView;

    open spec fn view(&self) -> CallbackDataView {
        CallbackDataView {
            allowed_mentions: self.allowed_mentions,
            components: match self.components {
                Some(cs) => Some(cs@),
                None => None,
            },
            content: match self.content {
                Some(c) => Some(c@),
                None => None,
            },
            embeds: self.embeds@,
            ephemeral: self.ephemeral,
            tts: self.tts,
        }
    }
}

/// The view of an entirely empty reply payload.
pub open spec fn spec_empty_callback_view() -> CallbackDataView {
    CallbackDataView {
        allowed_mentions: None,
        components: None,
        content: None,
        embeds: Seq::empty(),
        ephemeral: None,
        tts: None,
    }
}

/// Whether `d` carries nothing at all: the payload used to acknowledge an
/// interaction without content.
pub open spec fn spec_is_empty_callback(d: CallbackData) -> bool {
    d@ == spec_empty_callback_view()
}

/// An entirely empty reply payload, used to acknowledge an interaction
/// without content.
pub fn empty_callback() -> (r: CallbackData)
    ensures
        spec_is_empty_callback(r),
{
    let r = CallbackData {
        allowed_mentions: None,
        components: None,
        content: None,
        embeds: Vec::new(),
        ephemeral: None,
        tts: None,
    };
    proof {
        assert(r@ =~= spec_empty_callback_view());
    }
    r
}

/// The view of an ephemeral reply holding only the given text.
pub open spec fn spec_ephemeral_text_view(content: Seq<char>) -> CallbackDataView {
    CallbackDataView {
        allowed_mentions: None,
        components: None,
        content: Some(content),
        embeds: Seq::empty(),
        ephemeral: Some(true),
        tts: None,
    }
}

/// Whether `d` is an ephemeral text reply reading exactly `content`, with
/// no rich payload: the shape of every error reply this library builds.
pub open spec fn spec_is_ephemeral_text(d: CallbackData, content: Seq<char>) -> bool {
    d@ == spec_ephemeral_text_view(content)
}

/// An ephemeral reply holding only the given text, the shape used for
/// every error message sent back to the invoking user.
pub fn ephemeral_text(content: String) -> (r: CallbackData)
    ensures
        spec_is_ephemeral_text(r, content@),
{
    let r = CallbackData {
        allowed_mentions: None,
        components: None,
        content: Some(content),
        embeds: Vec::new(),
        ephemeral: Some(true),
        tts: None,
    };
    proof {
        assert(r@ =~= spec_ephemeral_text_view(content@));
    }
    r
}

/// The wire-level answer to an interaction, exactly one of the response
/// kinds the platform accepts.
#[derive(Debug, PartialEq)]
pub enum Callback {
    /// Answers a liveness check.
    Pong,
    /// A message posted immediately.
    ChannelMessageWithSource(CallbackData),
    /// A loading state shown now; the message arrives by a later update.
    DeferredChannelMessageWithSource(CallbackData),
    /// Acknowledges a component interaction; its message is edited later.
    DeferredUpdateMessage,
    /// Edits the message the component belongs to immediately.
    UpdateMessage(CallbackData),
}

impl Callback {
    /// Whether this answer promises a follow-up: the real content is
    /// delivered later by updating the original response.
    pub open spec fn spec_is_deferred(&self) -> bool {
        self is DeferredChannelMessageWithSource || self is DeferredUpdateMessage
    }

    /// Whether this answer promises a follow-up update.
    pub fn is_deferred(&self) -> (r: bool)
        ensures
            r == self.spec_is_deferred(),
    {
        match self {
            Callback::DeferredChannelMessageWithSource(_) => true,
            Callback::DeferredUpdateMessage => true,
            _ => false,
        }
    }
}

/// What a message-component handler answers: a fresh message or an edit of
/// the component's message, each either immediate or deferred.
#[derive(Debug, PartialEq)]
pub enum ComponentResponse {
    /// Post a new message now.
    Message(CallbackData),
    /// Acknowledge now; post a new message once the deferred work is done.
    DeferredMessage,
    /// Edit the component's message now.
    Update(CallbackData),
    /// Acknowledge now; edit the component's message later.
    DeferredUpdate,
}

impl ComponentResponse {
    /// The wire answer for this component response: deferred variants turn
    /// into the matching acknowledgement, immediate ones carry their payload.
    pub fn into_callback(self) -> (r: Callback)
        ensures
            match self {
                ComponentResponse::Message(d) => r == Callback::ChannelMessageWithSource(d),
                ComponentResponse::DeferredMessage => r matches Callback::DeferredChannelMessageWithSource(e)
                    && spec_is_empty_callback(e),
                ComponentResponse::Update(d) => r == Callback::UpdateMessage(d),
                ComponentResponse::DeferredUpdate => r == Callback::DeferredUpdateMessage,
            },
    {
        match self {
            ComponentResponse::Message(data) => Callback::ChannelMessageWithSource(data),
            ComponentResponse::DeferredMessage => Callback::DeferredChannelMessageWithSource(
                empty_callback(),
            ),
            ComponentResponse::Update(data) => Callback::UpdateMessage(data),
            ComponentResponse::DeferredUpdate => Callback::DeferredUpdateMessage,
        }
    }
}

} // verus!

//! Platform SDK types that the library carries through untouched.
//!
//! Rich payload pieces (embeds, components, mention filters) and full
//! message objects are built and read by callers; the library only moves
//! them between an interaction and the response sent back, so they are
//! declared here as opaque values.

use vstd::prelude::*;

verus! {

/// Rich embed attached to a message; carried through responses unread.
#[verifier::external_type_specification]
#[verifier::external_body]
pub struct ExEmbed(twilight_model::channel::embed::Embed);

/// Interactive component (button, select menu); carried through unread.
#[verifier::external_type_specification]
#[verifier::external_body]
pub struct ExComponent(twilight_model::application::component::Component);

/// Filter for which mentions in a message may ping; carried through unread.
#[verifier::external_type_specification]
#[verifier::external_body]
pub struct ExAllowedMentions(twilight_model::channel::message::AllowedMentions);

/// A full message object, delivered with message commands and component
/// interactions; the library hands it to the registered handler unread.
#[verifier::external_type_specification]
#[verifier::external_body]
pub struct ExMessage(twilight_model::channel::Message);

} // verus!

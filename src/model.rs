//! The platform data that the core reads: messages, their authors and
//! attachments, and channel descriptors.

use vstd::prelude::*;

verus! {

/// Who sent a message, with the display values the platform gives for them.
#[derive(Clone, Debug)]
pub struct Author {
    pub id: u64,
    /// Flagged by the platform as a bot account.
    pub bot: bool,
    /// Display name (`name` or `name#discriminator`).
    pub tag: String,
    /// Avatar image, or the platform's default avatar where none is set.
    pub avatar_url: String,
}

#[derive(Clone, Debug)]
pub struct Attachment {
    pub url: String,
    pub content_type: Option<String>,
    pub filename: String,
}

#[derive(Clone, Debug)]
pub struct Message {
    pub id: u64,
    pub channel_id: u64,
    /// The server the message was posted in; `None` in a direct message.
    pub guild_id: Option<u64>,
    /// Set when the message was posted through a webhook.
    pub webhook_id: Option<u64>,
    pub author: Author,
    pub content: String,
    pub attachments: Vec<Attachment>,
    /// Creation time, in the platform's timestamp text.
    pub timestamp: String,
}

#[derive(Clone, Copy, Debug, PartialEq, Eq, Structural)]
pub enum ChannelKind {
    Text,
    News,
    PublicThread,
    Other,
}

/// A channel of a server, as fetched from the platform or its cache.
#[derive(Clone, Debug)]
pub struct ChannelInfo {
    pub id: u64,
    pub name: String,
    pub kind: ChannelKind,
    /// The channel a thread belongs to.
    pub parent_id: Option<u64>,
}

} // verus!

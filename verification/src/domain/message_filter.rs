//! The abstraction of a context-based skip decision on a received message.
//!
//! It expresses skips that do not depend on the text (such as the author not
//! being in the bot's voice channel); text-based replacing and skipping is
//! `TextRule`'s part.

use vstd::prelude::*;

verus! {

/// The context of a received message, with what the filters need resolved.
pub struct IncomingMessage {
    /// The guild the message was posted in.
    pub guild_id: u64,
    /// The author's user identifier.
    pub author_id: u64,
    /// The text channel the message was posted in.
    pub channel_id: u64,
    /// Whether the author is in the same voice channel as the bot.
    pub author_in_bot_voice_channel: bool,
}

/// Decides whether a message is to be read aloud.
///
/// A new filter implements this trait and is added to a `MessageFilterChain`.
pub trait MessageFilter: Send + Sync {
    /// Whether the filter lets `message` through.
    spec fn allows(&self, message: IncomingMessage) -> bool;

    /// The filter's name (for logs).
    fn name(&self) -> &'static str;

    /// `true` to read the message, `false` to skip it.
    fn allow(&self, message: &IncomingMessage) -> (r: bool)
        ensures
            r == self.allows(*message),
    ;
}

} // verus!

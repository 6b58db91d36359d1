//! The standard message filters.

use vstd::prelude::*;

use crate::domain::message_filter::{IncomingMessage, MessageFilter};

verus! {

/// Skips messages from users who are not in the bot's voice channel.
pub struct VcMembershipFilter;

impl MessageFilter for VcMembershipFilter {
    open spec fn allows(&self, message: IncomingMessage) -> bool {
        message.author_in_bot_voice_channel
    }

    fn name(&self) -> (r: &'static str)
        ensures
            r@ == "vc_membership"@,
    {
        "vc_membership"
    }

    fn allow(&self, message: &IncomingMessage) -> (r: bool) {
        message.author_in_bot_voice_channel
    }
}

} // verus!

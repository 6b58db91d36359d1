//! The decisions the bot takes on Discord events.

use vstd::prelude::*;

use crate::application::rule_pipeline::{read_text, RulePipeline};
use crate::domain::text_rule::TextRule;

verus! {

/// What of a received message is read aloud: nothing for messages of bots
/// (the bot itself included), nothing when the guild has no reading state
/// (`target_channel` is `None`: the bot is not in a voice channel) or the
/// message is in another channel; otherwise what the pipeline leaves.
pub fn text_to_read<R: TextRule>(
    pipeline: &RulePipeline<R>,
    author_is_bot: bool,
    author_is_self: bool,
    target_channel: Option<u64>,
    channel_id: u64,
    content: &str,
) -> (r: Option<String>)
    ensures
        !(!author_is_bot && !author_is_self && target_channel == Some(channel_id)) ==> r is None,
        !author_is_bot && !author_is_self && target_channel == Some(channel_id) ==> match r {
            Some(s) => read_text(pipeline.rules(), content@) == Some(s@),
            None => read_text(pipeline.rules(), content@) is None,
        },
{
    if author_is_bot || author_is_self {
        return None;
    }
    match target_channel {
        Some(target) => if target == channel_id {
            pipeline.run(content)
        } else {
            None
        },
        None => None,
    }
}

/// The number of members whose voice channel is `channel`.
pub open spec fn members_in(channel: u64, member_channels: Seq<Option<u64>>) -> nat {
    member_channels.filter(in_channel(channel)).len()
}

/// Whether a member's voice channel is `channel`.
pub open spec fn in_channel(channel: u64) -> spec_fn(Option<u64>) -> bool {
    |c: Option<u64>| c == Some(channel)
}

/// Whether the bot leaves its voice channel `bot_channel`, given the voice
/// channel of every member of the guild (the bot included): when no one but
/// the bot is left in it.
pub fn should_leave(bot_channel: u64, member_channels: &Vec<Option<u64>>) -> (r: bool)
    ensures
        r == (members_in(bot_channel, member_channels@) < 2),
{
    let ghost pred = in_channel(bot_channel);
    let mut count: usize = 0;
    let n = member_channels.len();
    for i in 0..n
        invariant
            n == member_channels@.len(),
            pred == in_channel(bot_channel),
            count == member_channels@.take(i as int).filter(pred).len(),
            count <= i,
    {
        reveal_with_fuel(Seq::<_>::filter, 1);
        assert(member_channels@.take(i + 1).drop_last() == member_channels@.take(i as int));
        assert(member_channels@.take(i + 1).last() == member_channels@[i as int]);
        assert(member_channels@.take(i + 1).filter(pred) == if pred(member_channels@[i as int]) {
            member_channels@.take(i as int).filter(pred).push(member_channels@[i as int])
        } else {
            member_channels@.take(i as int).filter(pred)
        });
        let here = match member_channels[i] {
            Some(c) => c == bot_channel,
            None => false,
        };
        if here {
            count = count + 1;
        }
    }
    assert(member_channels@.take(n as int) == member_channels@);
    count < 2
}

/// Only members whose voice channel is the bot's own count: a member counts
/// exactly when its channel is `channel`; adding a member elsewhere (or in
/// no channel) changes neither the count nor the decision to leave, adding
/// one in the channel adds one to the count; nobody is counted in an empty
/// guild.
pub proof fn lemma_members_in_channel(
    channel: u64,
    member_channels: Seq<Option<u64>>,
    other: Option<u64>,
)
    ensures
        in_channel(channel)(other) <==> other == Some(channel),
        members_in(channel, Seq::empty()) == 0,
        other != Some(channel) ==> members_in(channel, member_channels.push(other)) == members_in(
            channel,
            member_channels,
        ),
        members_in(channel, member_channels.push(Some(channel))) == members_in(
            channel,
            member_channels,
        ) + 1,
        members_in(channel, member_channels) <= member_channels.len(),
{
    reveal_with_fuel(Seq::<_>::filter, 1);
    let p = in_channel(channel);
    assert(member_channels.push(other).drop_last() == member_channels);
    assert(member_channels.push(Some(channel)).drop_last() == member_channels);
    member_channels.lemma_filter_len_push(p, other);
    member_channels.lemma_filter_len_push(p, Some(channel));
    assert(Seq::<Option<u64>>::empty().filter(p) =~= Seq::<Option<u64>>::empty());
    member_channels.lemma_filter_len(p);
}

} // verus!

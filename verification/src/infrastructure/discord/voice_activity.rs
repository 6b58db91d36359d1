//! Tracking speech in voice channels (the bot holds back while someone
//! speaks).
//!
//! Times are milliseconds of a monotonic clock that the bot reads; the
//! tracker records, per guild, when someone last spoke.

use dashmap::DashMap;

use vstd::prelude::*;

verus! {

/// The concurrent map of the `dashmap` crate.
#[verifier::external_type_specification]
#[verifier::external_body]
#[verifier::reject_recursive_types(K)]
#[verifier::reject_recursive_types(V)]
#[verifier::reject_recursive_types(S)]
pub struct ExDashMap<K, V, S>(dashmap::DashMap<K, V, S>);

/// What a map from guilds to times holds.
pub uninterp spec fn recorded_times(m: DashMap<u64, u64>) -> Map<u64, u64>;

/// `DashMap::new`: a map that holds nothing.
#[verifier::external_body]
fn new_times() -> (r: DashMap<u64, u64>)
    ensures
        recorded_times(r) =~= Map::empty(),
{
    DashMap::new()
}

/// `DashMap::insert`: afterwards `guild` maps to `time`, the other entries
/// unchanged. (The value it hands back, the one replaced, is not used.)
#[verifier::external_body]
fn record_time(m: &mut DashMap<u64, u64>, guild: u64, time: u64)
    ensures
        recorded_times(*final(m)) == recorded_times(*old(m)).insert(guild, time),
{
    m.insert(guild, time);
}

/// `DashMap::get`: the time stored for `guild`, if any.
#[verifier::external_body]
fn recorded_time(m: &DashMap<u64, u64>, guild: u64) -> (r: Option<u64>)
    ensures
        r == if recorded_times(*m).contains_key(guild) {
            Some(recorded_times(*m)[guild])
        } else {
            None
        },
{
    m.get(&guild).map(|t| *t)
}

/// Records, per guild, the last time someone spoke in its voice channel.
pub struct SpeakingTracker {
    last_spoke: DashMap<u64, u64>,
}

/// Whether a guild is quiet at `now`: no speech recorded, or at least
/// `threshold` milliseconds since the last one.
pub open spec fn quiet(last: Option<u64>, now: u64, threshold: u64) -> bool {
    match last {
        Some(t) => (if now >= t {
            now - t
        } else {
            0
        }) >= threshold,
        None => true,
    }
}

impl SpeakingTracker {
    /// When someone last spoke in each guild.
    pub closed spec fn last_spoke(&self) -> Map<u64, u64> {
        recorded_times(self.last_spoke)
    }

    /// A tracker with nothing recorded.
    pub fn new() -> (r: Self)
        ensures
            r.last_spoke() == Map::<u64, u64>::empty(),
    {
        SpeakingTracker { last_spoke: new_times() }
    }

    /// Records that someone in `guild_id`'s voice channel spoke at `now`.
    pub fn mark_speaking(&mut self, guild_id: u64, now: u64)
        ensures
            final(self).last_spoke() == old(self).last_spoke().insert(guild_id, now),
    {
        record_time(&mut self.last_spoke, guild_id, now);
    }

    /// Whether `guild_id` is quiet at `now` for `threshold` milliseconds.
    pub fn is_quiet(&self, guild_id: u64, now: u64, threshold: u64) -> (r: bool)
        ensures
            r == quiet(
                if self.last_spoke().contains_key(guild_id) {
                    Some(self.last_spoke()[guild_id])
                } else {
                    None
                },
                now,
                threshold,
            ),
    {
        match recorded_time(&self.last_spoke, guild_id) {
            Some(t) => {
                let elapsed = if now >= t {
                    now - t
                } else {
                    0
                };
                elapsed >= threshold
            },
            None => true,
        }
    }
}

} // verus!

verus! {

/// Right after someone spoke, a guild is not quiet for any positive
/// threshold; a guild where no one spoke is always quiet.
pub proof fn lemma_speech_breaks_quiet(t: u64, threshold: u64, now: u64)
    ensures
        threshold > 0 ==> !quiet(Some(t), t, threshold),
        quiet(None, now, threshold),
        now >= t && now - t >= threshold ==> quiet(Some(t), now, threshold),
{
}

} // verus!

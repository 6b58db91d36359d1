//! The reading jobs queued per guild.

use vstd::prelude::*;

use crate::domain::model::UserVoice;

verus! {

/// One reading job.
pub struct SpeechJob {
    /// The preprocessed text to read.
    pub text: String,
    /// The voice to read it with.
    pub voice: UserVoice,
}

/// The capacity of a guild's synthesis queue.
pub const SPEECH_QUEUE_CAPACITY: usize = 32;

} // verus!

//! The Discord side: commands, the voice selection pager and event decisions.

use vstd::prelude::*;

use crate::domain::model::EngineId;

pub mod commands;
pub mod events;
pub mod message_flow;
pub mod voice_activity;
pub mod voice_pager;

verus! {

/// The display name of an engine: `VOICEVOX`, `AIVoice`, or 「不明なエンジン」
/// ("unknown engine") for any other identifier.
pub open spec fn display_name(engine: Seq<char>) -> Seq<char> {
    if engine == "voicevox"@ {
        "VOICEVOX"@
    } else if engine == "aivoice"@ {
        "AIVoice"@
    } else {
        "不明なエンジン"@
    }
}

/// The name shown on Discord for an engine identifier.
pub fn engine_display_name(engine: &EngineId) -> (r: &'static str)
    ensures
        r@ == display_name(engine@),
{
    if engine.same(&EngineId::voicevox()) {
        "VOICEVOX"
    } else if engine.same(&EngineId::aivoice()) {
        "AIVoice"
    } else {
        "不明なエンジン"
    }
}

} // verus!

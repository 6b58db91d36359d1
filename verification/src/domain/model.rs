//! Domain value objects.

use vstd::prelude::*;
use vstd::std_specs::cmp::PartialEqSpecImpl;

use crate::text::{decimal_digits, u64_to_decimal};

verus! {

/// The identifier of a speech synthesis engine (such as `voicevox`, `aivoice`).
#[derive(Debug, Clone, Eq, Hash)]
pub struct EngineId(String);

impl View for EngineId {
    type V = Seq<char>;

    closed spec fn view(&self) -> Seq<char> {
        self.0@
    }
}

impl PartialEq for EngineId {
    fn eq(&self, other: &Self) -> (r: bool) {
        self.0 == other.0
    }
}

impl PartialEqSpecImpl for EngineId {
    open spec fn obeys_eq_spec() -> bool {
        true
    }

    open spec fn eq_spec(&self, other: &Self) -> bool {
        self@ == other@
    }
}

impl EngineId {
    /// An engine identifier from any string.
    pub fn new(id: String) -> (r: Self)
        ensures
            r@ == id@,
    {
        EngineId(id)
    }

    /// The identifier of the VOICEVOX engine.
    pub fn voicevox() -> (r: Self)
        ensures
            r@ == "voicevox"@,
    {
        EngineId("voicevox".to_owned())
    }

    /// The identifier of the AIVoice2 engine.
    pub fn aivoice() -> (r: Self)
        ensures
            r@ == "aivoice"@,
    {
        EngineId("aivoice".to_owned())
    }

    /// The identifier of the Tsubaki AI engine.
    pub fn tsubaki() -> (r: Self)
        ensures
            r@ == "tsubaki"@,
    {
        EngineId("tsubaki".to_owned())
    }

    /// Borrows the identifier's text.
    pub fn as_str(&self) -> (r: &str)
        ensures
            r@ == self@,
    {
        self.0.as_str()
    }

    /// A copy of this identifier.
    pub fn copied(&self) -> (r: Self)
        ensures
            r@ == self@,
    {
        EngineId(self.0.clone())
    }

    /// Whether two identifiers are the same text.
    pub fn same(&self, other: &EngineId) -> (r: bool)
        ensures
            r == (self@ == other@),
    {
        self.0 == other.0
    }
}

/// The identifier of a speaker (a voice style).
#[derive(Debug, Clone, Copy, PartialEq, Eq, Hash, Structural)]
pub struct SpeakerId(pub u32);

impl SpeakerId {
    /// The identifier in decimal, as it is displayed.
    pub fn to_text(&self) -> (r: String)
        ensures
            r@ == decimal_digits(self.0 as nat),
    {
        u64_to_decimal(self.0 as u64)
    }
}

/// A Discord user identifier.
#[derive(Debug, Clone, Copy, PartialEq, Eq, Hash, Structural)]
pub struct UserId(pub u64);

/// The voice a user has chosen: which engine, which speaker.
#[derive(Debug, Clone, PartialEq, Eq)]
pub struct UserVoice {
    /// The engine used.
    pub engine: EngineId,
    /// The speaker used.
    pub speaker: SpeakerId,
}

impl UserVoice {
    /// The voice as plain values: the engine identifier and the speaker number.
    pub open spec fn view_pair(&self) -> (Seq<char>, u32) {
        (self.engine@, self.speaker.0)
    }

    /// A copy of this voice.
    pub fn copied(&self) -> (r: Self)
        ensures
            r.view_pair() == self.view_pair(),
    {
        UserVoice { engine: self.engine.copied(), speaker: self.speaker }
    }
}

/// One speaker and its styles.
#[derive(Debug, Clone)]
pub struct Speaker {
    /// The speaker's name.
    pub name: String,
    /// The speaker's styles.
    pub styles: Vec<SpeakerStyle>,
}

/// A speaker's style (such as VOICEVOX's 「ノーマル」, 「あまあま」).
#[derive(Debug, Clone)]
pub struct SpeakerStyle {
    /// The style's name.
    pub name: String,
    /// The speaker identifier of this style.
    pub id: SpeakerId,
}

/// A dictionary entry: how a word is to be read.
#[derive(Debug, Clone)]
pub struct DictionaryEntry {
    /// The written form to register.
    pub surface: String,
    /// The reading (katakana).
    pub pronunciation: String,
    /// The position of the accent nucleus.
    pub accent_type: i32,
}

/// Synthesized speech (WAV bytes).
#[derive(Debug, Clone)]
pub struct Wav(pub Vec<u8>);

impl Wav {
    /// The bytes inside.
    pub fn into_bytes(self) -> (r: Vec<u8>)
        ensures
            r@ == self.0@,
    {
        self.0
    }
}

} // verus!

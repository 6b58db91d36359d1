//! The use case that turns the text to read into speech.

use std::sync::Arc;

use vstd::prelude::*;

use crate::application::engine_registry::TtsEngineRegistry;
use crate::domain::model::UserVoice;

verus! {

/// Synthesizes text into WAV with the user's voice settings.
pub struct SynthesizeUseCase<E, D, W> {
    registry: Arc<TtsEngineRegistry<E, D, W>>,
}

impl<E, D, W> SynthesizeUseCase<E, D, W> {
    /// The registry the engine is chosen from.
    pub closed spec fn registry(&self) -> TtsEngineRegistry<E, D, W> {
        *self.registry
    }

    /// A use case over `registry`.
    pub fn new(registry: Arc<TtsEngineRegistry<E, D, W>>) -> (r: Self)
        ensures
            r.registry() == *registry,
    {
        SynthesizeUseCase { registry }
    }

    /// Whether an engine can be chosen for `voice`: its own engine or the
    /// fallback engine is registered.
    pub fn can_synthesize(&self, voice: &UserVoice) -> (r: bool)
        ensures
            r == (self.registry().engine_of(voice.engine@) is Some || self.registry().engine_of(
                self.registry().default_id(),
            ) is Some),
    {
        self.registry.is_registered(&voice.engine) || self.registry.is_default_registered()
    }

    /// The engine that synthesizes with `voice`: the voice's engine, or the
    /// fallback engine when that one is not registered.
    pub fn engine_for(&self, voice: &UserVoice) -> (r: &E)
        requires
            self.registry().engine_of(voice.engine@) is Some || self.registry().engine_of(
                self.registry().default_id(),
            ) is Some,
        ensures
            *r == match self.registry().engine_of(voice.engine@) {
                Some(e) => e,
                None => self.registry().engine_of(self.registry().default_id())->0,
            },
    {
        self.registry.engine_or_default(&voice.engine)
    }
}

} // verus!

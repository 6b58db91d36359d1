//! The use case that registers a word in an engine's dictionary.

use std::sync::Arc;

use vstd::prelude::*;

use crate::application::engine_registry::TtsEngineRegistry;
use crate::domain::model::EngineId;
use crate::error::TtsError;

verus! {

/// Registers how a word is read in the dictionary.
///
/// Only VOICEVOX has a dictionary API: the word goes to VOICEVOX's user
/// dictionary.
pub struct AddWordUseCase<E, D, W> {
    registry: Arc<TtsEngineRegistry<E, D, W>>,
}

impl<E, D, W> AddWordUseCase<E, D, W> {
    /// The registry the use case looks the dictionary up in.
    pub closed spec fn registry(&self) -> TtsEngineRegistry<E, D, W> {
        *self.registry
    }

    /// A use case over `registry`.
    pub fn new(registry: Arc<TtsEngineRegistry<E, D, W>>) -> (r: Self)
        ensures
            r.registry() == *registry,
    {
        AddWordUseCase { registry }
    }

    /// The dictionary writer the word goes to: VOICEVOX's, or
    /// `TtsError::Unsupported("voicevox")` when none is registered.
    pub fn dictionary_writer(&self) -> (r: Result<&W, TtsError>)
        ensures
            r matches Ok(w) ==> self.registry().writer_of("voicevox"@) == Some(*w),
            r matches Err(e) ==> self.registry().writer_of("voicevox"@) is None && (e matches TtsError::Unsupported(s) && s@ == "voicevox"@),
    {
        let engine = EngineId::voicevox();
        match self.registry.dict_writer(&engine) {
            Some(w) => Ok(w),
            None => Err(TtsError::Unsupported(engine.as_str().to_owned())),
        }
    }
}

} // verus!

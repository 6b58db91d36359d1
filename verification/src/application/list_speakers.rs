//! The use case that gathers the speakers of every engine into one list.

use std::sync::Arc;

use vstd::prelude::*;

use crate::application::engine_registry::TtsEngineRegistry;
use crate::domain::model::{EngineId, Speaker, SpeakerId};
use crate::error::TtsError;

verus! {

/// One element of the flattened list: engine, speaker and style.
#[derive(Debug, Clone)]
pub struct FlatSpeaker {
    /// The engine.
    pub engine: EngineId,
    /// The speaker's name.
    pub speaker_name: String,
    /// The style's name.
    pub style_name: String,
    /// The speaker identifier.
    pub speaker_id: SpeakerId,
}

impl FlatSpeaker {
    /// The element as plain values: engine, speaker name, style name,
    /// speaker identifier.
    pub open spec fn view_tuple(&self) -> (Seq<char>, Seq<char>, Seq<char>, u32) {
        (self.engine@, self.speaker_name@, self.style_name@, self.speaker_id.0)
    }
}

/// The elements for the styles of `styles`, of speaker `name` of `engine`.
pub open spec fn flat_styles(engine: Seq<char>, name: Seq<char>, styles: Seq<crate::domain::model::SpeakerStyle>) -> Seq<(Seq<char>, Seq<char>, Seq<char>, u32)>
    decreases styles.len(),
{
    if styles.len() == 0 {
        Seq::empty()
    } else {
        flat_styles(engine, name, styles.drop_last()).push(
            (engine, name, styles.last().name@, styles.last().id.0),
        )
    }
}

/// The elements for `speakers` of `engine`, speaker by speaker, style by style.
pub open spec fn flat_speakers(engine: Seq<char>, speakers: Seq<Speaker>) -> Seq<(Seq<char>, Seq<char>, Seq<char>, u32)>
    decreases speakers.len(),
{
    if speakers.len() == 0 {
        Seq::empty()
    } else {
        flat_speakers(engine, speakers.drop_last()) + flat_styles(
            engine,
            speakers.last().name@,
            speakers.last().styles@,
        )
    }
}

/// The elements for the answers of the engines, in order; an engine whose
/// list could not be fetched contributes nothing.
pub open spec fn flat_results(results: Seq<(EngineId, Result<Vec<Speaker>, TtsError>)>) -> Seq<(Seq<char>, Seq<char>, Seq<char>, u32)>
    decreases results.len(),
{
    if results.len() == 0 {
        Seq::empty()
    } else {
        flat_results(results.drop_last()) + match &results.last().1 {
            Ok(speakers) => flat_speakers(results.last().0@, speakers@),
            Err(_) => Seq::empty(),
        }
    }
}

/// Gathers the speakers of every registered engine into one flat list.
pub struct ListSpeakersUseCase<E, D, W> {
    registry: Arc<TtsEngineRegistry<E, D, W>>,
}

fn push_styles(out: &mut Vec<FlatSpeaker>, engine: &EngineId, speaker: &Speaker)
    ensures
        final(out)@.map_values(|f: FlatSpeaker| f.view_tuple()) == old(out)@.map_values(
            |f: FlatSpeaker| f.view_tuple(),
        ) + flat_styles(engine@, speaker.name@, speaker.styles@),
{
    let n = speaker.styles.len();
    let ghost base = old(out)@.map_values(|f: FlatSpeaker| f.view_tuple());
    for i in 0..n
        invariant
            n == speaker.styles@.len(),
            out@.map_values(|f: FlatSpeaker| f.view_tuple()) == base + flat_styles(
                engine@,
                speaker.name@,
                speaker.styles@.take(i as int),
            ),
    {
        let style = &speaker.styles[i];
        let ghost before = out@;
        out.push(
            FlatSpeaker {
                engine: engine.copied(),
                speaker_name: speaker.name.clone(),
                style_name: style.name.clone(),
                speaker_id: style.id,
            },
        );
        assert(speaker.styles@.take(i + 1).drop_last() == speaker.styles@.take(i as int));
        assert(out@.map_values(|f: FlatSpeaker| f.view_tuple()) == before.map_values(
            |f: FlatSpeaker| f.view_tuple(),
        ).push(out@.last().view_tuple()));
    }
    assert(speaker.styles@.take(n as int) == speaker.styles@);
}

impl<E, D, W> ListSpeakersUseCase<E, D, W> {
    /// The registry the engines come from.
    pub closed spec fn registry(&self) -> TtsEngineRegistry<E, D, W> {
        *self.registry
    }

    /// A use case over `registry`.
    pub fn new(registry: Arc<TtsEngineRegistry<E, D, W>>) -> (r: Self)
        ensures
            r.registry() == *registry,
    {
        ListSpeakersUseCase { registry }
    }

    /// The speaker directories to ask, in registration order.
    pub fn directories(&self) -> (r: Vec<(EngineId, &D)>)
        ensures
            r@.len() == self.registry().dirs_along(self.registry().order()).len(),
            forall|i: int|
                0 <= i < r@.len() ==> (#[trigger] r@[i]).0@ == self.registry().dirs_along(
                    self.registry().order(),
                )[i].0 && *r@[i].1 == self.registry().dirs_along(self.registry().order())[i].1,
    {
        self.registry.speaker_dirs_in_order()
    }

    /// Flattens the engines' answers, in order, into one list of
    /// (engine, speaker, style) elements; failed answers are skipped.
    pub fn flatten(results: &Vec<(EngineId, Result<Vec<Speaker>, TtsError>)>) -> (r: Vec<FlatSpeaker>)
        ensures
            r@.map_values(|f: FlatSpeaker| f.view_tuple()) == flat_results(results@),
    {
        let mut out: Vec<FlatSpeaker> = Vec::new();
        let n = results.len();
        for i in 0..n
            invariant
                n == results@.len(),
                out@.map_values(|f: FlatSpeaker| f.view_tuple()) == flat_results(
                    results@.take(i as int),
                ),
        {
            let ghost before = out@.map_values(|f: FlatSpeaker| f.view_tuple());
            assert(results@.take(i + 1).drop_last() == results@.take(i as int));
            assert(results@.take(i + 1).last() == results@[i as int]);
            let (engine, answer) = &results[i];
            match answer {
                Ok(speakers) => {
                    let m = speakers.len();
                    for j in 0..m
                        invariant
                            m == speakers@.len(),
                            out@.map_values(|f: FlatSpeaker| f.view_tuple()) == before
                                + flat_speakers(engine@, speakers@.take(j as int)),
                    {
                        push_styles(&mut out, engine, &speakers[j]);
                        assert(speakers@.take(j + 1).drop_last() == speakers@.take(j as int));
                    }
                    assert(speakers@.take(m as int) == speakers@);
                },
                Err(_) => {
                    assert(before + Seq::empty() == before);
                },
            }
        }
        assert(results@.take(n as int) == results@);
        out
    }
}

} // verus!

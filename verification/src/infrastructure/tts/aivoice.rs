//! The AIVoice2 engine's speakers.

use vstd::prelude::*;

use crate::domain::model::{Speaker, SpeakerId, SpeakerStyle};

verus! {

/// The AIVoice2 (speaker, style) of a speaker number: 1 is 葵 (`aoi`); 0 and
/// every other number fall back to 茜 (`akane`); the style is always 平静.
pub fn speaker_config(speaker: SpeakerId) -> (r: (&'static str, &'static str))
    ensures
        r.0@ == if speaker.0 == 1 {
            "aoi"@
        } else {
            "akane"@
        },
        r.1@ == "平静"@,
{
    if speaker.0 == 1 {
        ("aoi", "平静")
    } else {
        ("akane", "平静")
    }
}

/// A speaker with a single style.
pub fn single_style_speaker(name: &str, style: &str, id: u32) -> (r: Speaker)
    ensures
        r.name@ == name@,
        r.styles@.len() == 1,
        r.styles@[0].name@ == style@,
        r.styles@[0].id == SpeakerId(id),
{
    let mut styles = Vec::new();
    styles.push(SpeakerStyle { name: style.to_owned(), id: SpeakerId(id) });
    Speaker { name: name.to_owned(), styles }
}

/// The speakers of AIVoice2 (it has no speaker list API): 琴葉茜 (0) and
/// 琴葉葵 (1), each with the style 平静.
pub fn aivoice_speakers() -> (r: Vec<Speaker>)
    ensures
        r@.len() == 2,
        r@[0].name@ == "琴葉茜"@,
        r@[0].styles@.len() == 1,
        r@[0].styles@[0].name@ == "平静"@,
        r@[0].styles@[0].id == SpeakerId(0),
        r@[1].name@ == "琴葉葵"@,
        r@[1].styles@.len() == 1,
        r@[1].styles@[0].name@ == "平静"@,
        r@[1].styles@[0].id == SpeakerId(1),
{
    let mut v = Vec::new();
    v.push(single_style_speaker("琴葉茜", "平静", 0));
    v.push(single_style_speaker("琴葉葵", "平静", 1));
    v
}

} // verus!

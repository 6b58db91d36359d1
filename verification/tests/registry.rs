use std::sync::Arc;

use yomiage::application::add_word::AddWordUseCase;
use yomiage::application::engine_registry::TtsEngineRegistry;
use yomiage::application::list_speakers::{FlatSpeaker, ListSpeakersUseCase};
use yomiage::application::synthesize::SynthesizeUseCase;
use yomiage::domain::model::{EngineId, Speaker, SpeakerId, SpeakerStyle, UserVoice};
use yomiage::error::TtsError;

fn id(s: &str) -> EngineId {
    EngineId::new(s.to_owned())
}

fn sample() -> TtsEngineRegistry<&'static str, &'static str, &'static str> {
    let mut r = TtsEngineRegistry::new(EngineId::voicevox());
    r.register(id("voicevox"), "vv-engine", Some("vv-dir"), Some("vv-dict"));
    r.register(id("aivoice"), "ai-engine", Some("ai-dir"), None);
    r.register(id("plain"), "plain-engine", None, None);
    r
}

#[test]
fn registered_engines_are_found() {
    let r = sample();
    assert_eq!(r.engine(&id("voicevox")), Some(&"vv-engine"));
    assert_eq!(r.engine(&id("aivoice")), Some(&"ai-engine"));
    assert_eq!(r.engine(&id("none")), None);
    assert!(r.is_registered(&id("plain")));
    assert!(!r.is_registered(&id("none")));
    assert_eq!(r.dict_writer(&id("voicevox")), Some(&"vv-dict"));
    assert_eq!(r.dict_writer(&id("aivoice")), None);
}

#[test]
fn unknown_engine_falls_back_to_default() {
    let r = sample();
    assert_eq!(*r.engine_or_default(&id("none")), "vv-engine");
    assert_eq!(*r.engine_or_default(&id("aivoice")), "ai-engine");
}

#[test]
fn speaker_dirs_follow_registration_order() {
    let r = sample();
    let dirs: Vec<(String, &str)> = r
        .speaker_dirs_in_order()
        .into_iter()
        .map(|(e, d)| (e.as_str().to_owned(), *d))
        .collect();
    assert_eq!(dirs, vec![("voicevox".to_owned(), "vv-dir"), ("aivoice".to_owned(), "ai-dir")]);
}

#[test]
fn registering_again_replaces_and_keeps_the_place() {
    let mut r = sample();
    r.register(id("voicevox"), "vv2", None, None);
    assert_eq!(r.engine(&id("voicevox")), Some(&"vv2"));
    assert_eq!(r.dict_writer(&id("voicevox")), Some(&"vv-dict"));
    let order: Vec<String> = r
        .speaker_dirs_in_order()
        .into_iter()
        .map(|(e, _)| e.as_str().to_owned())
        .collect();
    assert_eq!(order, vec!["voicevox".to_owned(), "aivoice".to_owned()]);
}

#[test]
fn add_word_goes_to_voicevox_only() {
    let r = Arc::new(sample());
    assert_eq!(AddWordUseCase::new(r).dictionary_writer().ok(), Some(&"vv-dict"));
    let mut bare: TtsEngineRegistry<&str, &str, &str> = TtsEngineRegistry::new(EngineId::voicevox());
    bare.register(id("aivoice"), "ai", None, None);
    match AddWordUseCase::new(Arc::new(bare)).dictionary_writer() {
        Err(TtsError::Unsupported(e)) => assert_eq!(e, "voicevox"),
        _ => panic!("expected Unsupported"),
    }
}

#[test]
fn synthesis_engine_follows_the_voice() {
    let uc = SynthesizeUseCase::new(Arc::new(sample()));
    let voice = UserVoice { engine: id("aivoice"), speaker: SpeakerId(1) };
    assert_eq!(*uc.engine_for(&voice), "ai-engine");
    let voice = UserVoice { engine: id("gone"), speaker: SpeakerId(1) };
    assert_eq!(*uc.engine_for(&voice), "vv-engine");
}

fn speaker(name: &str, styles: &[(&str, u32)]) -> Speaker {
    Speaker {
        name: name.to_owned(),
        styles: styles
            .iter()
            .map(|(n, i)| SpeakerStyle { name: (*n).to_owned(), id: SpeakerId(*i) })
            .collect(),
    }
}

#[test]
fn speakers_are_flattened_in_order_and_failures_skipped() {
    let results = vec![
        (id("voicevox"), Ok(vec![speaker("めたん", &[("ノーマル", 2), ("あまあま", 0)]), speaker("ずんだもん", &[("ノーマル", 3)])])),
        (id("broken"), Err(TtsError::Http("down".to_owned()))),
        (id("aivoice"), Ok(vec![speaker("琴葉茜", &[("平静", 0)])])),
    ];
    let flat: Vec<FlatSpeaker> = ListSpeakersUseCase::<(), (), ()>::flatten(&results);
    let got: Vec<(String, String, String, u32)> = flat
        .iter()
        .map(|f| (f.engine.as_str().to_owned(), f.speaker_name.clone(), f.style_name.clone(), f.speaker_id.0))
        .collect();
    assert_eq!(
        got,
        vec![
            ("voicevox".to_owned(), "めたん".to_owned(), "ノーマル".to_owned(), 2),
            ("voicevox".to_owned(), "めたん".to_owned(), "あまあま".to_owned(), 0),
            ("voicevox".to_owned(), "ずんだもん".to_owned(), "ノーマル".to_owned(), 3),
            ("aivoice".to_owned(), "琴葉茜".to_owned(), "平静".to_owned(), 0),
        ]
    );
}

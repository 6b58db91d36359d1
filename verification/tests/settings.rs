use yomiage::domain::model::{EngineId, SpeakerId, UserId, UserVoice};
use yomiage::infrastructure::discord::voice_activity::SpeakingTracker;
use yomiage::infrastructure::persistence::json_voice_store::{
    default_engine, default_speaker_id, default_voice, SettingsDto, UserSettingDto, VoiceSettings,
};

fn voice(engine: &str, speaker: u32) -> UserVoice {
    UserVoice { engine: EngineId::new(engine.to_owned()), speaker: SpeakerId(speaker) }
}

#[test]
fn defaults() {
    assert_eq!(default_speaker_id(), 8);
    assert_eq!(default_engine(), "voicevox");
    assert_eq!(default_voice(), voice("voicevox", 8));
}

#[test]
fn get_after_set_and_default_for_others() {
    let mut s = VoiceSettings::new(default_voice());
    assert_eq!(s.get(UserId(1)), voice("voicevox", 8));
    s.set(UserId(1), voice("aivoice", 1));
    assert_eq!(s.get(UserId(1)), voice("aivoice", 1));
    assert_eq!(s.get(UserId(2)), voice("voicevox", 8));
    s.set(UserId(1), voice("voicevox", 3));
    assert_eq!(s.get(UserId(1)), voice("voicevox", 3));
    assert_eq!(s.default_voice(), voice("voicevox", 8));
}

#[test]
fn old_form_is_migrated_to_voicevox() {
    let dto = SettingsDto {
        default_speaker_id: 2,
        default_engine: "voicevox".to_owned(),
        user_settings: vec![("10".to_owned(), 5), ("bad".to_owned(), 6)],
        user_settings_v2: vec![],
    };
    let (s, migrated) = VoiceSettings::from_dto(dto);
    assert!(migrated);
    assert_eq!(s.get(UserId(10)), voice("voicevox", 5));
    assert_eq!(s.get(UserId(11)), voice("voicevox", 2));
}

#[test]
fn new_form_wins_over_old_form() {
    let dto = SettingsDto {
        default_speaker_id: 8,
        default_engine: "aivoice".to_owned(),
        user_settings: vec![("10".to_owned(), 5)],
        user_settings_v2: vec![("10".to_owned(), UserSettingDto { speaker_id: 1, engine: "aivoice".to_owned() })],
    };
    let (s, migrated) = VoiceSettings::from_dto(dto);
    assert!(!migrated);
    assert_eq!(s.get(UserId(10)), voice("aivoice", 1));
    assert_eq!(s.default_voice(), voice("aivoice", 8));
}

#[test]
fn saved_settings_load_back() {
    let mut s = VoiceSettings::new(voice("voicevox", 8));
    s.set(UserId(42), voice("aivoice", 1));
    s.set(UserId(7), voice("voicevox", 3));
    let dto = s.to_dto();
    assert!(dto.user_settings.is_empty());
    assert_eq!(dto.user_settings_v2.len(), 2);
    let (back, migrated) = VoiceSettings::from_dto(dto);
    assert!(!migrated);
    assert_eq!(back.get(UserId(42)), voice("aivoice", 1));
    assert_eq!(back.get(UserId(7)), voice("voicevox", 3));
    assert_eq!(back.default_voice(), voice("voicevox", 8));
}

#[test]
fn speaking_tracker_waits_for_quiet() {
    let mut t = SpeakingTracker::new();
    assert!(t.is_quiet(1, 0, 500));
    t.mark_speaking(1, 1000);
    assert!(!t.is_quiet(1, 1200, 500));
    assert!(t.is_quiet(1, 1500, 500));
    assert!(t.is_quiet(2, 1200, 500));
}

use yomiage::application::engine_registry::TtsEngineRegistry;
use yomiage::application::list_speakers::FlatSpeaker;
use yomiage::domain::model::{EngineId, SpeakerId};
use yomiage::error::{ConfigError, StoreError, TtsError};
use yomiage::infrastructure::discord::commands::{direct_voice, leave_reply, LeaveOutcome};
use yomiage::infrastructure::discord::voice_activity::SpeakingTracker;
use yomiage::infrastructure::discord::voice_pager::voice_menu;

fn registry() -> TtsEngineRegistry<u8, u8, u8> {
    let mut r = TtsEngineRegistry::new(EngineId::voicevox());
    r.register(EngineId::voicevox(), 1, Some(1), Some(1));
    r.register(EngineId::aivoice(), 2, Some(2), None);
    r
}

#[test]
fn error_messages() {
    assert_eq!(TtsError::Http("x".to_owned()).message(), "HTTP リクエストに失敗しました: x");
    assert_eq!(
        TtsError::BadResponse { status: 404, body: "nf".to_owned() }.message(),
        "エンジンがステータス 404 を返しました: nf"
    );
    assert_eq!(TtsError::Decode("d".to_owned()).message(), "レスポンスの解析に失敗しました: d");
    assert_eq!(
        TtsError::Unsupported("aivoice".to_owned()).message(),
        "エンジン 'aivoice' はこの操作に対応していません"
    );
    assert_eq!(StoreError::Io("e".to_owned()).message(), "設定ファイルの I/O に失敗しました: e");
    assert_eq!(StoreError::Serde("s".to_owned()).message(), "設定ファイルの解析に失敗しました: s");
    assert_eq!(
        ConfigError::Missing("DISCORD_TOKEN").message(),
        "必須の環境変数 `DISCORD_TOKEN` が設定されていません"
    );
    assert_eq!(
        ConfigError::Invalid { name: "PORT", value: "x".to_owned() }.message(),
        "環境変数 `PORT` の値が不正です: x"
    );
}

#[test]
fn direct_voice_choices() {
    let r = registry();
    let v = direct_voice("aivoice:1001", &r).unwrap();
    assert_eq!(v.engine.as_str(), "aivoice");
    assert_eq!(v.speaker, SpeakerId(1001));
    let v = direct_voice(" 8 ", &r).unwrap();
    assert_eq!(v.engine.as_str(), "voicevox");
    assert_eq!(v.speaker, SpeakerId(8));
    assert_eq!(
        direct_voice("tsubaki:0", &r).unwrap_err(),
        "無効なエンジンタイプです: tsubaki (voicevox または aivoice を指定してください)"
    );
    assert_eq!(direct_voice("abc", &r).unwrap_err(), "無効なSpeaker IDです。数字を指定してください。");
}

#[test]
fn leave_replies() {
    assert_eq!(leave_reply(LeaveOutcome::OutsideGuild), ("ギルド内で実行してください。".to_owned(), true));
    assert_eq!(leave_reply(LeaveOutcome::VoiceUnavailable), ("音声機能が利用できません。".to_owned(), false));
    assert_eq!(
        leave_reply(LeaveOutcome::NotConnected),
        ("参加中のボイスチャンネルはありません。".to_owned(), false)
    );
    assert_eq!(
        leave_reply(LeaveOutcome::LeaveFailed),
        ("ボイスチャンネルからの退出に失敗しました。".to_owned(), false)
    );
    assert_eq!(leave_reply(LeaveOutcome::Left), ("ばいばい〜".to_owned(), false));
}

#[test]
fn voice_menu_pages() {
    assert_eq!(voice_menu(&vec![]).err(), Some("スピーカー一覧の取得に失敗しました。".to_owned()));
    let speakers = vec![FlatSpeaker {
        engine: EngineId::voicevox(),
        speaker_name: "ずんだもん".to_owned(),
        style_name: "ノーマル".to_owned(),
        speaker_id: SpeakerId(3),
    }];
    let pager = voice_menu(&speakers).ok().unwrap();
    assert_eq!(pager.content, "使用する音声を選択してください: (1件)");
    assert_eq!(pager.menu_id, "select_voice:0");
    assert_eq!(pager.options.len(), 1);
    assert!(pager.buttons.is_empty());
}

#[test]
fn registration_series() {
    let mut r: TtsEngineRegistry<u8, u8, u8> = TtsEngineRegistry::new(EngineId::voicevox());
    assert!(!r.is_registered(&EngineId::voicevox()));
    r.register(EngineId::voicevox(), 1, Some(1), Some(7));
    r.register(EngineId::aivoice(), 2, Some(2), None);
    r.register(EngineId::voicevox(), 3, None, None);
    assert!(r.is_registered(&EngineId::voicevox()));
    assert!(r.is_registered(&EngineId::aivoice()));
    assert_eq!(r.engine(&EngineId::voicevox()), Some(&3));
    assert_eq!(r.dict_writer(&EngineId::voicevox()), Some(&7));
    assert_eq!(r.dict_writer(&EngineId::aivoice()), None);
    let order: Vec<String> =
        r.speaker_dirs_in_order().into_iter().map(|(id, d)| format!("{}={}", id.as_str(), d)).collect();
    assert_eq!(order, vec!["voicevox=1", "aivoice=2"]);
}

#[test]
fn speaking_tracker_with_dashmap() {
    let mut t = SpeakingTracker::new();
    assert!(t.is_quiet(1, 0, 500));
    t.mark_speaking(1, 1000);
    assert!(!t.is_quiet(1, 1200, 500));
    assert!(t.is_quiet(1, 1500, 500));
    assert!(t.is_quiet(2, 1200, 500));
}

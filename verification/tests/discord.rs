use yomiage::application::list_speakers::FlatSpeaker;
use yomiage::application::rule_pipeline::RulePipeline;
use yomiage::application::rules::default_rules;
use yomiage::domain::model::{EngineId, SpeakerId};
use yomiage::infrastructure::discord::commands::{
    command_definitions, OptionKind, dictionary_entry, invalid_engine_message, joined_message, parse_speaker_arg, voice_set_message,
    word_added_message, Command,
};
use yomiage::infrastructure::discord::engine_display_name;
use yomiage::infrastructure::discord::events::{should_leave, text_to_read};
use yomiage::infrastructure::discord::voice_pager::{
    build_pager, classify_component, parse_selection, ComponentAction,
};

#[test]
fn display_names() {
    assert_eq!(engine_display_name(&EngineId::voicevox()), "VOICEVOX");
    assert_eq!(engine_display_name(&EngineId::aivoice()), "AIVoice");
    assert_eq!(engine_display_name(&EngineId::new("x".to_owned())), "不明なエンジン");
}

#[test]
fn speaker_arguments() {
    let (e, i) = parse_speaker_arg("voicevox:8").unwrap();
    assert_eq!((e.as_str(), i), ("voicevox", 8));
    let (e, i) = parse_speaker_arg(" aivoice : 1001 ").unwrap();
    assert_eq!((e.as_str(), i), ("aivoice", 1001));
    let (e, i) = parse_speaker_arg("8").unwrap();
    assert_eq!((e.as_str(), i), ("voicevox", 8));
    assert_eq!(parse_speaker_arg("abc").unwrap_err(), "無効なSpeaker IDです。数字を指定してください。");
    assert!(parse_speaker_arg("voicevox:").is_err());
    assert!(parse_speaker_arg("a:b:1").is_err());
    assert!(parse_speaker_arg("4294967296").is_err());
}

#[test]
fn commands_by_name() {
    assert_eq!(Command::from_name("join"), Some(Command::Join));
    assert_eq!(Command::from_name("set-voice"), Some(Command::SetVoice));
    assert_eq!(Command::from_name("add-word"), Some(Command::AddWord));
    assert_eq!(Command::from_name("other"), None);
}

#[test]
fn answers() {
    assert_eq!(voice_set_message(&EngineId::voicevox(), 8), "音声を VOICEVOX (Speaker ID: 8) に設定しました。");
    assert_eq!(
        invalid_engine_message(&EngineId::new("x".to_owned())),
        "無効なエンジンタイプです: x (voicevox または aivoice を指定してください)"
    );
    let entry = dictionary_entry("単語", "タンゴ", 1);
    assert_eq!(word_added_message(&entry), "辞書への単語登録に成功しました。\n[単語](タンゴ)");
    assert_eq!(dictionary_entry("a", "b", (1i64 << 32) + 5).accent_type, 5);
    assert_eq!(joined_message(Some("雑談")), "[雑談]に参加したよ");
    assert_eq!(joined_message(None), "ボイスチャンネルに参加したよ");
}

fn speakers(n: u32) -> Vec<FlatSpeaker> {
    (0..n)
        .map(|i| FlatSpeaker {
            engine: if i % 2 == 0 { EngineId::voicevox() } else { EngineId::aivoice() },
            speaker_name: format!("s{i}"),
            style_name: "ノーマル".to_owned(),
            speaker_id: SpeakerId(i),
        })
        .collect()
}

#[test]
fn single_page_has_no_buttons() {
    let p = build_pager(&speakers(3), 0);
    assert_eq!(p.content, "使用する音声を選択してください: (3件)");
    assert_eq!(p.menu_id, "select_voice:0");
    assert_eq!(p.placeholder, "音声を選択");
    assert_eq!(p.options.len(), 3);
    assert_eq!(p.options[0].label, "[VOICEVOX] s0 (ノーマル)");
    assert_eq!(p.options[1].label, "[AIVoice] s1 (ノーマル)");
    assert_eq!(p.options[1].value, "aivoice:1");
    assert_eq!(p.options[1].description, "Speaker ID: 1");
    assert!(p.buttons.is_empty());
}

#[test]
fn middle_and_clamped_pages() {
    let list = speakers(60);
    let p = build_pager(&list, 1);
    assert_eq!(p.options.len(), 25);
    assert_eq!(p.options[0].value, "aivoice:25");
    let ids: Vec<&str> = p.buttons.iter().map(|b| b.custom_id.as_str()).collect();
    assert_eq!(ids, vec!["voice_page:0", "voice_page_info", "voice_page:2"]);
    assert_eq!(p.buttons[1].label, "ページ 2/3");
    assert!(p.buttons[1].disabled);
    let last = build_pager(&list, 99);
    assert_eq!(last.menu_id, "select_voice:2");
    assert_eq!(last.options.len(), 10);
    let ids: Vec<&str> = last.buttons.iter().map(|b| b.custom_id.as_str()).collect();
    assert_eq!(ids, vec!["voice_page:1", "voice_page_info"]);
    assert_eq!(last.buttons[0].label, "◀ 前へ");
}

#[test]
fn components_and_selection() {
    assert_eq!(classify_component("select_voice:0"), ComponentAction::Select);
    assert_eq!(classify_component("voice_page:3"), ComponentAction::ChangePage(3));
    assert_eq!(classify_component("voice_page:x"), ComponentAction::ChangePage(0));
    assert_eq!(classify_component("voice_page_info"), ComponentAction::Ignore);
    let (e, i) = parse_selection(Some("aivoice:1")).unwrap();
    assert_eq!((e.as_str(), i), ("aivoice", 1));
    assert_eq!(parse_selection(None).unwrap_err(), "音声が選択されていません。");
    assert_eq!(parse_selection(Some("nocolon")).unwrap_err(), "無効な音声選択です。");
    assert_eq!(parse_selection(Some("a: 1")).unwrap_err(), "無効な音声IDです。");
}

#[test]
fn pager_values_read_back() {
    let list = speakers(4);
    let p = build_pager(&list, 0);
    for (k, o) in p.options.iter().enumerate() {
        let (e, i) = parse_selection(Some(&o.value)).unwrap();
        assert_eq!(e, list[k].engine);
        assert_eq!(i, list[k].speaker_id.0);
    }
}

#[test]
fn message_decisions() {
    let pipeline = RulePipeline::new(default_rules());
    assert_eq!(text_to_read(&pipeline, false, false, Some(5), 5, " やあ "), Some("やあ".to_owned()));
    assert_eq!(text_to_read(&pipeline, true, false, Some(5), 5, "やあ"), None);
    assert_eq!(text_to_read(&pipeline, false, true, Some(5), 5, "やあ"), None);
    assert_eq!(text_to_read(&pipeline, false, false, None, 5, "やあ"), None);
    assert_eq!(text_to_read(&pipeline, false, false, Some(6), 5, "やあ"), None);
}

#[test]
fn leave_when_alone() {
    assert!(should_leave(1, &vec![Some(1)]));
    assert!(should_leave(1, &vec![Some(1), Some(2), None]));
    assert!(!should_leave(1, &vec![Some(1), Some(1)]));
}

#[test]
fn registered_commands() {
    let defs = command_definitions();
    let names: Vec<&str> = defs.iter().map(|d| d.name).collect();
    assert_eq!(names, vec!["join", "leave", "cancel", "set-voice", "add-word"]);
    assert_eq!(defs[3].options.len(), 1);
    assert!(!defs[3].options[0].required);
    assert_eq!(defs[4].options[2].name, "accent_type");
    assert_eq!(defs[4].options[2].kind, OptionKind::Integer);
    for d in &defs {
        assert_eq!(Command::from_name(d.name).is_some(), true);
    }
}

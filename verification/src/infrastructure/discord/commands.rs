//! The slash commands: which command a name is, how the `speaker_id`
//! argument reads, and the texts of the answers.

use vstd::prelude::*;

use crate::application::engine_registry::TtsEngineRegistry;
use crate::domain::model::{DictionaryEntry, EngineId, SpeakerId, UserVoice};
use crate::infrastructure::discord::{display_name, engine_display_name};
use crate::text::{
    chars_of, concat, decimal_digits, find_char, first_index, parse_bounded, parse_unsigned,
    slice_chars, string_of, trim, trim_chars, u64_to_decimal,
};

verus! {

/// The slash commands the bot registers.
#[derive(Debug, Clone, Copy, PartialEq, Eq, Structural)]
pub enum Command {
    /// `/join`: join the caller's voice channel.
    Join,
    /// `/leave`: leave the voice channel.
    Leave,
    /// `/cancel`: stop what is being read.
    Cancel,
    /// `/set-voice`: choose a voice.
    SetVoice,
    /// `/add-word`: register a word's reading.
    AddWord,
}

/// The name a command is registered under: `join`, `leave`, `cancel`,
/// `set-voice`, `add-word`.
pub open spec fn command_name(c: Command) -> Seq<char> {
    match c {
        Command::Join => "join"@,
        Command::Leave => "leave"@,
        Command::Cancel => "cancel"@,
        Command::SetVoice => "set-voice"@,
        Command::AddWord => "add-word"@,
    }
}

/// The commands in the order they are registered.
pub open spec fn command_order() -> Seq<Command> {
    seq![Command::Join, Command::Leave, Command::Cancel, Command::SetVoice, Command::AddWord]
}

/// The command a name stands for.
pub open spec fn command_named(name: Seq<char>) -> Option<Command> {
    if name == "join"@ {
        Some(Command::Join)
    } else if name == "leave"@ {
        Some(Command::Leave)
    } else if name == "cancel"@ {
        Some(Command::Cancel)
    } else if name == "set-voice"@ {
        Some(Command::SetVoice)
    } else if name == "add-word"@ {
        Some(Command::AddWord)
    } else {
        None
    }
}

impl Command {
    /// The command named `name`, or `None` for an unknown command.
    pub fn from_name(name: &str) -> (r: Option<Command>)
        ensures
            r == command_named(name@),
    {
        let n = name.to_owned();
        if n == "join".to_owned() {
            Some(Command::Join)
        } else if n == "leave".to_owned() {
            Some(Command::Leave)
        } else if n == "cancel".to_owned() {
            Some(Command::Cancel)
        } else if n == "set-voice".to_owned() {
            Some(Command::SetVoice)
        } else if n == "add-word".to_owned() {
            Some(Command::AddWord)
        } else {
            None
        }
    }
}

/// The type of a command option.
#[derive(Debug, Clone, Copy, PartialEq, Eq, Structural)]
pub enum OptionKind {
    /// A text option.
    String,
    /// An integer option.
    Integer,
}

/// One option of a slash command.
pub struct OptionDefinition {
    /// The option's type.
    pub kind: OptionKind,
    /// The option's name.
    pub name: &'static str,
    /// The option's description.
    pub description: &'static str,
    /// Whether the option must be given.
    pub required: bool,
}

/// One slash command as it is registered.
pub struct CommandDefinition {
    /// The command's name.
    pub name: &'static str,
    /// The command's description.
    pub description: &'static str,
    /// The command's options, in order.
    pub options: Vec<OptionDefinition>,
}

impl OptionDefinition {
    /// The option as plain values.
    pub open spec fn view_tuple(&self) -> (OptionKind, Seq<char>, Seq<char>, bool) {
        (self.kind, self.name@, self.description@, self.required)
    }
}

/// The slash commands the bot registers, in order: `join`, `leave`,
/// `cancel`, `set-voice` (an optional text `speaker_id`) and `add-word`
/// (required `word` and `pronunciation` texts and an integer `accent_type`).
pub fn command_definitions() -> (r: Vec<CommandDefinition>)
    ensures
        r@.len() == 5,
        forall|i: int| 0 <= i < 5 ==> command_named(#[trigger] r@[i].name@) == Some(command_order()[i]),
        r@[0].name@ == "join"@ && r@[0].description@ == "あなたの参加しているボイスチャンネルに参加します。"@
            && r@[0].options@.len() == 0,
        r@[1].name@ == "leave"@ && r@[1].description@ == "参加しているボイスチャンネルから退出します。"@
            && r@[1].options@.len() == 0,
        r@[2].name@ == "cancel"@ && r@[2].description@ == "読み上げをキャンセルします。"@
            && r@[2].options@.len() == 0,
        r@[3].name@ == "set-voice"@ && r@[3].description@ == "あなたの音声を設定します。"@
            && r@[3].options@.map_values(|o: OptionDefinition| o.view_tuple()) == seq![
            (
                OptionKind::String,
                "speaker_id"@,
                "Speaker ID (例: voicevox:8, aivoice:1001, または数字のみで8)"@,
                false,
            ),
        ],
        r@[4].name@ == "add-word"@ && r@[4].description@ == "単語の読み方を登録します。"@
            && r@[4].options@.map_values(|o: OptionDefinition| o.view_tuple()) == seq![
            (OptionKind::String, "word"@, "単語"@, true),
            (OptionKind::String, "pronunciation"@, "読み(カタカナ)"@, true),
            (OptionKind::Integer, "accent_type"@, "アクセント核位置"@, true),
        ],
{
    let mut set_voice_options = Vec::new();
    set_voice_options.push(
        OptionDefinition {
            kind: OptionKind::String,
            name: "speaker_id",
            description: "Speaker ID (例: voicevox:8, aivoice:1001, または数字のみで8)",
            required: false,
        },
    );
    let mut add_word_options = Vec::new();
    add_word_options.push(
        OptionDefinition { kind: OptionKind::String, name: "word", description: "単語", required: true },
    );
    add_word_options.push(
        OptionDefinition {
            kind: OptionKind::String,
            name: "pronunciation",
            description: "読み(カタカナ)",
            required: true,
        },
    );
    add_word_options.push(
        OptionDefinition {
            kind: OptionKind::Integer,
            name: "accent_type",
            description: "アクセント核位置",
            required: true,
        },
    );
    let mut r = Vec::new();
    r.push(
        CommandDefinition {
            name: "join",
            description: "あなたの参加しているボイスチャンネルに参加します。",
            options: Vec::new(),
        },
    );
    r.push(
        CommandDefinition {
            name: "leave",
            description: "参加しているボイスチャンネルから退出します。",
            options: Vec::new(),
        },
    );
    r.push(
        CommandDefinition {
            name: "cancel",
            description: "読み上げをキャンセルします。",
            options: Vec::new(),
        },
    );
    r.push(
        CommandDefinition {
            name: "set-voice",
            description: "あなたの音声を設定します。",
            options: set_voice_options,
        },
    );
    r.push(
        CommandDefinition {
            name: "add-word",
            description: "単語の読み方を登録します。",
            options: add_word_options,
        },
    );
    assert(r@[3].options@.map_values(|o: OptionDefinition| o.view_tuple()) =~= seq![
        (
            OptionKind::String,
            "speaker_id"@,
            "Speaker ID (例: voicevox:8, aivoice:1001, または数字のみで8)"@,
            false,
        ),
    ]);
    assert(r@[4].options@.map_values(|o: OptionDefinition| o.view_tuple()) =~= seq![
        (OptionKind::String, "word"@, "単語"@, true),
        (OptionKind::String, "pronunciation"@, "読み(カタカナ)"@, true),
        (OptionKind::Integer, "accent_type"@, "アクセント核位置"@, true),
    ]);
    proof {
        assert forall|i: int| 0 <= i < 5 implies command_named(#[trigger] r@[i].name@) == Some(
            command_order()[i],
        ) by {
            lemma_command_names(r@[i].name@, command_order()[i]);
        }
    }
    r
}

/// How the `speaker_id` argument reads: `engine:id` (both parts trimmed), or
/// a bare number for VOICEVOX.
pub open spec fn speaker_arg(s: Seq<char>) -> Option<(Seq<char>, nat)> {
    match first_index(s, ':') {
        Some(k) => match parse_unsigned(trim(s.subrange(k + 1, s.len() as int)), u32::MAX as nat) {
            Some(id) => Some((trim(s.subrange(0, k)), id)),
            None => None,
        },
        None => match parse_unsigned(trim(s), u32::MAX as nat) {
            Some(id) => Some(("voicevox"@, id)),
            None => None,
        },
    }
}

/// The answer to a `speaker_id` that does not read as a number.
pub open spec fn invalid_speaker_message() -> Seq<char> {
    "無効なSpeaker IDです。数字を指定してください。"@
}

/// Reads the `speaker_id` argument of `/set-voice` into an engine and a
/// speaker number.
///
/// Accepted: `voicevox:8`, `aivoice:1001`, `8` (a bare number is VOICEVOX).
pub fn parse_speaker_arg(arg: &str) -> (r: Result<(EngineId, u32), String>)
    ensures
        r matches Ok((engine, id)) ==> speaker_arg(arg@) == Some((engine@, id as nat)),
        r matches Err(message) ==> speaker_arg(arg@) is None && message@ == invalid_speaker_message(),
{
    let s = chars_of(arg);
    match find_char(&s, ':') {
        Some(k) => {
            let id_part = trim_chars(&slice_chars(&s, k + 1, s.len()));
            match parse_bounded(id_part.as_slice(), u32::MAX as u64) {
                Some(id) => {
                    let engine = trim_chars(&slice_chars(&s, 0, k));
                    Ok((EngineId::new(string_of(&engine)), id as u32))
                },
                None => Err("無効なSpeaker IDです。数字を指定してください。".to_owned()),
            }
        },
        None => {
            let id_part = trim_chars(&s);
            match parse_bounded(id_part.as_slice(), u32::MAX as u64) {
                Some(id) => Ok((EngineId::voicevox(), id as u32)),
                None => Err("無効なSpeaker IDです。数字を指定してください。".to_owned()),
            }
        },
    }
}

/// 「音声を {engine} (Speaker ID: {id}) に設定しました。」: the answer when a
/// voice was stored.
pub open spec fn voice_set_text(engine: Seq<char>, id: u32) -> Seq<char> {
    "音声を "@ + display_name(engine) + " (Speaker ID: "@ + decimal_digits(id as nat) + ") に設定しました。"@
}

/// The answer when a voice was stored.
pub fn voice_set_message(engine: &EngineId, id: u32) -> (r: String)
    ensures
        r@ == voice_set_text(engine@, id),
{
    let a = concat("音声を ", engine_display_name(engine));
    let b = concat(a.as_str(), " (Speaker ID: ");
    let c = concat(b.as_str(), u64_to_decimal(id as u64).as_str());
    concat(c.as_str(), ") に設定しました。")
}

/// The answer when `/set-voice` names an engine that is not registered.
pub fn invalid_engine_message(engine: &EngineId) -> (r: String)
    ensures
        r@ == invalid_engine_text(engine@),
{
    let a = concat("無効なエンジンタイプです: ", engine.as_str());
    concat(a.as_str(), " (voicevox または aivoice を指定してください)")
}

/// The answer when `/set-voice` names an engine that is not registered.
pub open spec fn invalid_engine_text(engine: Seq<char>) -> Seq<char> {
    "無効なエンジンタイプです: "@ + engine + " (voicevox または aivoice を指定してください)"@
}

/// The voice that `/set-voice speaker_id:<arg>` chooses: the argument read
/// as an engine and a speaker number, where that engine is registered;
/// otherwise the answer that says what is wrong.
pub fn direct_voice<E, D, W>(arg: &str, registry: &TtsEngineRegistry<E, D, W>) -> (r: Result<
    UserVoice,
    String,
>)
    ensures
        match speaker_arg(arg@) {
            None => r matches Err(m) && m@ == invalid_speaker_message(),
            Some((engine, id)) => if registry.engine_of(engine) is Some {
                r matches Ok(v) && v.engine@ == engine && v.speaker.0 as nat == id
            } else {
                r matches Err(m) && m@ == invalid_engine_text(engine)
            },
        },
{
    match parse_speaker_arg(arg) {
        Err(message) => Err(message),
        Ok((engine, id)) => {
            if registry.is_registered(&engine) {
                Ok(UserVoice { engine, speaker: SpeakerId(id) })
            } else {
                Err(invalid_engine_message(&engine))
            }
        },
    }
}

/// How `/leave` went.
#[derive(Debug, Clone, Copy, PartialEq, Eq, Structural)]
pub enum LeaveOutcome {
    /// The command was used outside a guild.
    OutsideGuild,
    /// The voice client is not available.
    VoiceUnavailable,
    /// The bot is in no voice channel of the guild.
    NotConnected,
    /// Leaving the channel failed.
    LeaveFailed,
    /// The bot left.
    Left,
}

/// The answer to `/leave` for each outcome, and whether only the caller
/// sees it.
pub fn leave_reply(outcome: LeaveOutcome) -> (r: (String, bool))
    ensures
        r.0@ == match outcome {
            LeaveOutcome::OutsideGuild => "ギルド内で実行してください。"@,
            LeaveOutcome::VoiceUnavailable => "音声機能が利用できません。"@,
            LeaveOutcome::NotConnected => "参加中のボイスチャンネルはありません。"@,
            LeaveOutcome::LeaveFailed => "ボイスチャンネルからの退出に失敗しました。"@,
            LeaveOutcome::Left => "ばいばい〜"@,
        },
        r.1 == (outcome == LeaveOutcome::OutsideGuild),
{
    match outcome {
        LeaveOutcome::OutsideGuild => ("ギルド内で実行してください。".to_owned(), true),
        LeaveOutcome::VoiceUnavailable => ("音声機能が利用できません。".to_owned(), false),
        LeaveOutcome::NotConnected => ("参加中のボイスチャンネルはありません。".to_owned(), false),
        LeaveOutcome::LeaveFailed => ("ボイスチャンネルからの退出に失敗しました。".to_owned(), false),
        LeaveOutcome::Left => ("ばいばい〜".to_owned(), false),
    }
}

/// The dictionary entry of `/add-word`; the accent position is converted to
/// `i32` as `as` does (keeping the low 32 bits).
pub fn dictionary_entry(word: &str, pronunciation: &str, accent_type: i64) -> (r: DictionaryEntry)
    ensures
        r.surface@ == word@,
        r.pronunciation@ == pronunciation@,
        r.accent_type == accent_type as i32,
{
    DictionaryEntry {
        surface: word.to_owned(),
        pronunciation: pronunciation.to_owned(),
        accent_type: accent_type as i32,
    }
}

/// The answer when a word was registered:
/// 「辞書への単語登録に成功しました。\n[{word}]({reading})」.
pub fn word_added_message(entry: &DictionaryEntry) -> (r: String)
    ensures
        r@ == "辞書への単語登録に成功しました。\n["@ + entry.surface@ + "]("@ + entry.pronunciation@
            + ")"@,
{
    let a = concat("辞書への単語登録に成功しました。\n[", entry.surface.as_str());
    let b = concat(a.as_str(), "](");
    let c = concat(b.as_str(), entry.pronunciation.as_str());
    concat(c.as_str(), ")")
}

/// The answer to `/join`: 「[{channel}]に参加したよ」, or
/// 「ボイスチャンネルに参加したよ」 when the channel's name is not known.
pub fn joined_message(channel_name: Option<&str>) -> (r: String)
    ensures
        r@ == match channel_name {
            Some(name) => "["@ + name@ + "]に参加したよ"@,
            None => "ボイスチャンネルに参加したよ"@,
        },
{
    match channel_name {
        Some(name) => {
            let a = concat("[", name);
            concat(a.as_str(), "]に参加したよ")
        },
        None => "ボイスチャンネルに参加したよ".to_owned(),
    }
}

/// Each command is found under its own name and under no other: a name
/// stands for a command exactly when it is that command's registered name
/// (`leave` is `/leave`, `cancel` is `/cancel`, and so on).
pub proof fn lemma_command_names(name: Seq<char>, c: Command)
    ensures
        command_named(command_name(c)) == Some(c),
        command_named(name) == Some(c) <==> name == command_name(c),
        command_named(name) is None <==> forall|d: Command| name != command_name(d),
{
    reveal_strlit("join");
    reveal_strlit("leave");
    reveal_strlit("cancel");
    reveal_strlit("set-voice");
    reveal_strlit("add-word");
    let names = seq!["join"@, "leave"@, "cancel"@, "set-voice"@, "add-word"@];
    assert(names[0][0] == 'j' && names[1][0] == 'l' && names[2][0] == 'c' && names[3][0] == 's'
        && names[4][0] == 'a');
    assert forall|i: int, j: int| 0 <= i < j < 5 implies names[i] != names[j] by {
        assert(names[i][0] != names[j][0]);
    }
    if command_named(name) is None {
        assert forall|d: Command| name != command_name(d) by {
        }
    } else {
        let e = command_named(name)->0;
        assert(name == command_name(e));
    }
}

} // verus!

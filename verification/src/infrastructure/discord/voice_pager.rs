//! The paged voice selection of `/set-voice`.
//!
//! `custom_id` conventions:
//! - select menu: `select_voice:<page>`
//! - page buttons: `voice_page:<page>`
//! - page indicator (disabled): `voice_page_info`
//!
//! The pager is built here as plain values; turning it into Discord
//! components is the bot's part.

use vstd::prelude::*;

use crate::application::list_speakers::FlatSpeaker;
use crate::domain::model::EngineId;
use crate::text::{
    chars_of, concat, decimal_digits, find_char, first_index, parse_bounded, parse_unsigned,
    slice_chars, starts_with, string_of, u64_to_decimal,
};

verus! {

/// Speakers per page (the limit of a Discord select menu).
pub const PAGE_SIZE: usize = 25;

/// One option of the select menu.
pub struct PagerOption {
    /// The text shown.
    pub label: String,
    /// The value sent back when chosen: `<engine>:<speaker id>`.
    pub value: String,
    /// The text under the label.
    pub description: String,
}

/// One button under the select menu.
pub struct PagerButton {
    /// The button's `custom_id`.
    pub custom_id: String,
    /// The text on the button.
    pub label: String,
    /// A primary (highlighted) button, else a secondary one.
    pub primary: bool,
    /// The button cannot be pressed.
    pub disabled: bool,
}

/// The voice selection message: its text, select menu and buttons.
pub struct VoicePager {
    /// The message text.
    pub content: String,
    /// The select menu's `custom_id`.
    pub menu_id: String,
    /// The select menu's placeholder.
    pub placeholder: String,
    /// The select menu's options.
    pub options: Vec<PagerOption>,
    /// The buttons (none when everything fits on one page).
    pub buttons: Vec<PagerButton>,
}

/// The number of pages for `n` speakers (at least one).
pub open spec fn page_count(n: nat) -> nat {
    if n == 0 {
        1
    } else {
        n / 25 + if n % 25 == 0 {
            0nat
        } else {
            1nat
        }
    }
}

/// The page shown when `page` is asked for: the last page at most.
pub open spec fn shown_page(n: nat, page: nat) -> nat {
    if page < page_count(n) {
        page
    } else {
        (page_count(n) - 1) as nat
    }
}

/// The label of a speaker's option: `[VOICEVOX] name (style)` for VOICEVOX,
/// `[AIVoice] name (style)` for any other engine.
pub open spec fn option_label(f: (Seq<char>, Seq<char>, Seq<char>, u32)) -> Seq<char> {
    (if f.0 == "voicevox"@ {
        "[VOICEVOX]"@
    } else {
        "[AIVoice]"@
    }) + " "@ + f.1 + " ("@ + f.2 + ")"@
}

/// The value of a speaker's option: `<engine>:<speaker id>`.
pub open spec fn option_value(f: (Seq<char>, Seq<char>, Seq<char>, u32)) -> Seq<char> {
    f.0 + ":"@ + decimal_digits(f.3 as nat)
}

/// The description of a speaker's option: `Speaker ID: <id>`.
pub open spec fn option_description(f: (Seq<char>, Seq<char>, Seq<char>, u32)) -> Seq<char> {
    "Speaker ID: "@ + decimal_digits(f.3 as nat)
}

/// The buttons of page `page` of `total`, as (custom id, label, primary,
/// disabled).
pub open spec fn pager_buttons(page: nat, total: nat) -> Seq<(Seq<char>, Seq<char>, bool, bool)> {
    if total <= 1 {
        Seq::empty()
    } else {
        (if page > 0 {
            seq![("voice_page:"@ + decimal_digits((page - 1) as nat), "◀ 前へ"@, true, false)]
        } else {
            Seq::empty()
        }) + seq![
            (
                "voice_page_info"@,
                "ページ "@ + decimal_digits(page + 1) + "/"@ + decimal_digits(total),
                false,
                true,
            ),
        ] + (if page + 1 < total {
            seq![("voice_page:"@ + decimal_digits(page + 1), "次へ ▶"@, true, false)]
        } else {
            Seq::empty()
        })
    }
}

impl PagerButton {
    /// The button as plain values.
    pub open spec fn view_tuple(&self) -> (Seq<char>, Seq<char>, bool, bool) {
        (self.custom_id@, self.label@, self.primary, self.disabled)
    }
}

fn page_button(page: usize, label: &str) -> (b: PagerButton)
    ensures
        b.view_tuple() == ("voice_page:"@ + decimal_digits(page as nat), label@, true, false),
{
    PagerButton {
        custom_id: concat("voice_page:", u64_to_decimal(page as u64).as_str()),
        label: label.to_owned(),
        primary: true,
        disabled: false,
    }
}

fn speaker_option(speaker: &FlatSpeaker) -> (o: PagerOption)
    ensures
        o.label@ == option_label(speaker.view_tuple()),
        o.value@ == option_value(speaker.view_tuple()),
        o.description@ == option_description(speaker.view_tuple()),
{
    let prefix = if speaker.engine.same(&EngineId::voicevox()) {
        "[VOICEVOX]"
    } else {
        "[AIVoice]"
    };
    let a = concat(prefix, " ");
    let b = concat(a.as_str(), speaker.speaker_name.as_str());
    let c = concat(b.as_str(), " (");
    let d = concat(c.as_str(), speaker.style_name.as_str());
    let label = concat(d.as_str(), ")");
    let id = u64_to_decimal(speaker.speaker_id.0 as u64);
    let e = concat(speaker.engine.as_str(), ":");
    let value = concat(e.as_str(), id.as_str());
    let description = concat("Speaker ID: ", id.as_str());
    PagerOption { label, value, description }
}

/// `r` is page `page` of the voice selection for `speakers` (a page past the
/// end shows the last page): the count in the text, the page's options, and
/// the page buttons.
pub open spec fn pager_shows(speakers: Seq<FlatSpeaker>, page: nat, r: VoicePager) -> bool {
    let n = speakers.len();
    let p = shown_page(n, page);
    let start: int = (p * 25) as int;
    let end: int = if start + 25 <= n {
        start + 25
    } else {
        n as int
    };
    &&& r.content@ == "使用する音声を選択してください: ("@ + decimal_digits(n) + "件)"@
    &&& r.menu_id@ == "select_voice:"@ + decimal_digits(p)
    &&& r.placeholder@ == "音声を選択"@
    &&& r.options@.len() == end - start
    &&& forall|k: int|
        0 <= k < r.options@.len() ==> {
            &&& (#[trigger] r.options@[k]).label@ == option_label(speakers[start + k].view_tuple())
            &&& r.options@[k].value@ == option_value(speakers[start + k].view_tuple())
            &&& r.options@[k].description@ == option_description(
                speakers[start + k].view_tuple(),
            )
        }
    &&& r.buttons@.map_values(|b: PagerButton| b.view_tuple()) == pager_buttons(p, page_count(n))
}

/// The answer to `/set-voice` without an argument: the first page of the
/// voice selection, or, when no speaker could be listed, the message that
/// says so.
pub fn voice_menu(speakers: &Vec<FlatSpeaker>) -> (r: Result<VoicePager, String>)
    ensures
        r is Err <==> speakers@.len() == 0,
        r matches Ok(p) ==> pager_shows(speakers@, 0, p),
        r matches Err(m) ==> m@ == "スピーカー一覧の取得に失敗しました。"@,
{
    if speakers.len() == 0 {
        Err("スピーカー一覧の取得に失敗しました。".to_owned())
    } else {
        Ok(build_pager(speakers, 0))
    }
}

/// Builds page `page` of the voice selection for `speakers` (a page past the
/// end shows the last page).
///
/// `speakers` should not be empty: Discord refuses an empty select menu.
pub fn build_pager(speakers: &Vec<FlatSpeaker>, page: usize) -> (r: VoicePager)
    ensures
        pager_shows(speakers@, page as nat, r),
{
    let n = speakers.len();
    let total_pages: usize = if n == 0 {
        1
    } else {
        n / PAGE_SIZE + if n % PAGE_SIZE == 0 {
            0
        } else {
            1
        }
    };
    let page = if page < total_pages {
        page
    } else {
        total_pages - 1
    };
    assert(page * 25 <= n) by (nonlinear_arith)
        requires
            page < total_pages,
            n == 0 ==> total_pages == 1,
            n > 0 ==> total_pages == n / 25 + if n % 25 == 0 {
                0int
            } else {
                1int
            },
    ;
    let start = page * PAGE_SIZE;
    let end = if n - start >= PAGE_SIZE {
        start + PAGE_SIZE
    } else {
        n
    };
    let mut options: Vec<PagerOption> = Vec::new();
    let mut i = start;
    while i < end
        invariant
            n == speakers@.len(),
            start <= i <= end <= n,
            options@.len() == i - start,
            forall|k: int|
                0 <= k < options@.len() ==> {
                    &&& (#[trigger] options@[k]).label@ == option_label(
                        speakers@[start + k].view_tuple(),
                    )
                    &&& options@[k].value@ == option_value(speakers@[start + k].view_tuple())
                    &&& options@[k].description@ == option_description(
                        speakers@[start + k].view_tuple(),
                    )
                },
        decreases end - i,
    {
        options.push(speaker_option(&speakers[i]));
        i = i + 1;
    }
    let mut buttons: Vec<PagerButton> = Vec::new();
    if total_pages > 1 {
        if page > 0 {
            buttons.push(page_button(page - 1, "◀ 前へ"));
        }
        let a = concat("ページ ", u64_to_decimal((page + 1) as u64).as_str());
        let b = concat(a.as_str(), "/");
        let label = concat(b.as_str(), u64_to_decimal(total_pages as u64).as_str());
        buttons.push(
            PagerButton {
                custom_id: "voice_page_info".to_owned(),
                label,
                primary: false,
                disabled: true,
            },
        );
        if page + 1 < total_pages {
            buttons.push(page_button(page + 1, "次へ ▶"));
        }
    }
    assert(buttons@.map_values(|b: PagerButton| b.view_tuple()) =~= pager_buttons(
        page as nat,
        page_count(n as nat),
    ));
    let a = concat("使用する音声を選択してください: (", u64_to_decimal(n as u64).as_str());
    let content = concat(a.as_str(), "件)");
    let menu_id = concat("select_voice:", u64_to_decimal(page as u64).as_str());
    VoicePager { content, menu_id, placeholder: "音声を選択".to_owned(), options, buttons }
}

/// What a component interaction of the voice selection asks for.
#[derive(Debug, Clone, Copy, PartialEq, Eq, Structural)]
pub enum ComponentAction {
    /// A voice was chosen in the select menu.
    Select,
    /// Show another page.
    ChangePage(usize),
    /// Nothing to do (the disabled page indicator, unknown ids).
    Ignore,
}

/// The action for a component `custom_id`: `select_voice…` selects;
/// `voice_page:<n>` changes to page `n` (0 when `n` does not read as a
/// number); anything else is ignored.
pub open spec fn component_action(id: Seq<char>) -> ComponentAction {
    if "select_voice"@.len() <= id.len() && id.subrange(0, "select_voice"@.len() as int)
        == "select_voice"@ {
        ComponentAction::Select
    } else if "voice_page:"@.len() <= id.len() && id.subrange(0, "voice_page:"@.len() as int)
        == "voice_page:"@ {
        ComponentAction::ChangePage(
            match parse_unsigned(
                id.subrange("voice_page:"@.len() as int, id.len() as int),
                usize::MAX as nat,
            ) {
                Some(n) => n as usize,
                None => 0,
            },
        )
    } else {
        ComponentAction::Ignore
    }
}

/// Decides what a component interaction asks for.
pub fn classify_component(custom_id: &str) -> (r: ComponentAction)
    ensures
        r == component_action(custom_id@),
{
    let id = chars_of(custom_id);
    let select = chars_of("select_voice");
    let page = chars_of("voice_page:");
    if starts_with(&id, &select) {
        ComponentAction::Select
    } else if starts_with(&id, &page) {
        let rest = slice_chars(&id, page.len(), id.len());
        match parse_bounded(rest.as_slice(), usize::MAX as u64) {
            Some(n) => ComponentAction::ChangePage(n as usize),
            None => ComponentAction::ChangePage(0),
        }
    } else {
        ComponentAction::Ignore
    }
}

/// How a chosen select value reads: `<engine>:<speaker id>`, split at the
/// first `:`, the number as `str::parse::<u32>` reads it.
pub open spec fn selection(value: Seq<char>) -> Result<(Seq<char>, nat), Seq<char>> {
    match first_index(value, ':') {
        Some(k) => match parse_unsigned(value.subrange(k + 1, value.len() as int), u32::MAX as nat) {
            Some(id) => Ok((value.subrange(0, k), id)),
            None => Err("無効な音声IDです。"@),
        },
        None => Err("無効な音声選択です。"@),
    }
}

/// Reads the value chosen in the select menu; `None` when nothing was chosen.
/// The error is the answer to show.
pub fn parse_selection(selected: Option<&str>) -> (r: Result<(EngineId, u32), String>)
    ensures
        selected is None ==> (r matches Err(m) && m@ == "音声が選択されていません。"@),
        selected matches Some(v) ==> match (r, selection(v@)) {
            (Ok((engine, id)), Ok((e, n))) => engine@ == e && id as nat == n,
            (Err(m), Err(text)) => m@ == text,
            _ => false,
        },
{
    match selected {
        None => Err("音声が選択されていません。".to_owned()),
        Some(value) => {
            let v = chars_of(value);
            match find_char(&v, ':') {
                Some(k) => {
                    let id_part = slice_chars(&v, k + 1, v.len());
                    match parse_bounded(id_part.as_slice(), u32::MAX as u64) {
                        Some(id) => Ok(
                            (EngineId::new(string_of(&slice_chars(&v, 0, k))), id as u32),
                        ),
                        None => Err("無効な音声IDです。".to_owned()),
                    }
                },
                None => Err("無効な音声選択です。".to_owned()),
            }
        },
    }
}

} // verus!

verus! {

/// The value of a speaker's option reads back, when chosen, as the speaker's
/// engine and identifier (for an engine identifier without `:`).
pub proof fn lemma_option_value_reads_back(f: (Seq<char>, Seq<char>, Seq<char>, u32))
    requires
        forall|i: int| 0 <= i < f.0.len() ==> f.0[i] != ':',
    ensures
        selection(option_value(f)) == Ok::<(Seq<char>, nat), Seq<char>>((f.0, f.3 as nat)),
{
    reveal_strlit(":");
    let v = option_value(f);
    let k = f.0.len() as int;
    crate::text::lemma_parse_decimal(f.3 as nat, u32::MAX as nat);
    assert(v[k] == ':');
    assert(forall|j: int| 0 <= j < k ==> v[j] == f.0[j]);
    let i = choose|i: int| 0 <= i < v.len() && v[i] == ':' && forall|j: int| 0 <= j < i ==> v[j] != ':';
    assert(i == k);
    assert(v.subrange(k + 1, v.len() as int) == decimal_digits(f.3 as nat));
    assert(v.subrange(0, k) == f.0);
}

/// The pages cover the speakers: speaker `k` is option `k % 25` of page
/// `k / 25`, which is shown as asked.
pub proof fn lemma_every_speaker_has_a_page(n: nat, k: nat)
    requires
        k < n,
    ensures
        shown_page(n, k / 25) == k / 25,
        (k / 25) * 25 <= k < (k / 25) * 25 + 25,
{
    assert((k / 25) * 25 <= k < (k / 25) * 25 + 25) by (nonlinear_arith);
    assert(k / 25 < page_count(n)) by (nonlinear_arith)
        requires
            k < n,
            page_count(n) == n / 25 + if n % 25 == 0 {
                0nat
            } else {
                1nat
            },
            n > 0,
    ;
}

/// The page buttons let the user walk through every page: when there is
/// more than one page, every page but the first has a "◀ 前へ" button to the
/// page before it, first; every page but the last has a "次へ ▶" button to
/// the page after it, last; between them stands the disabled indicator
/// 「ページ {page+1}/{total}」. A single page has no buttons.
pub proof fn lemma_pager_buttons_navigate(page: nat, total: nat)
    requires
        page < total,
    ensures
        total <= 1 ==> pager_buttons(page, total).len() == 0,
        total > 1 ==> pager_buttons(page, total).len() == 1 + (if page > 0 {
            1int
        } else {
            0int
        }) + (if page + 1 < total {
            1int
        } else {
            0int
        }),
        total > 1 && page > 0 ==> pager_buttons(page, total)[0] == (
            "voice_page:"@ + decimal_digits((page - 1) as nat),
            "◀ 前へ"@,
            true,
            false,
        ),
        total > 1 && page + 1 < total ==> pager_buttons(page, total).last() == (
            "voice_page:"@ + decimal_digits(page + 1),
            "次へ ▶"@,
            true,
            false,
        ),
        total > 1 ==> pager_buttons(page, total)[if page > 0 {
            1int
        } else {
            0int
        }] == (
            "voice_page_info"@,
            "ページ "@ + decimal_digits(page + 1) + "/"@ + decimal_digits(total),
            false,
            true,
        ),
{
}

/// The page count is the number of 25-speaker pages needed: every speaker
/// fits, and the last page is not empty.
pub proof fn lemma_page_count_fits(n: nat)
    ensures
        n == 0 ==> page_count(n) == 1,
        n > 0 ==> (page_count(n) - 1) * 25 < n <= page_count(n) * 25,
{
    if n > 0 {
        assert((page_count(n) - 1) * 25 < n <= page_count(n) * 25) by (nonlinear_arith)
            requires
                n > 0,
                page_count(n) == n / 25 + if n % 25 == 0 {
                    0nat
                } else {
                    1nat
                },
        ;
    }
}

} // verus!

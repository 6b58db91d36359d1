//! The voice settings kept by the JSON settings file.
//!
//! The file's schema is compatible with the earlier settings file: the old
//! form (`user_settings`, speaker numbers only) is migrated to the new form
//! (`user_settings_v2`, engine and speaker) when it is read. Reading and
//! writing the file is the bot's part; the settings and their conversion
//! from and to the file's contents are here.

use std::collections::HashMap;

use vstd::prelude::*;
use vstd::std_specs::hash::spec_hash_map_iter;
use vstd::std_specs::iter::IteratorSpec;

use crate::domain::model::{EngineId, SpeakerId, UserId, UserVoice};
use crate::text::{chars_of, decimal_digits, lemma_parse_decimal, parse_u64, parse_unsigned, u64_to_decimal};

verus! {

broadcast use vstd::std_specs::hash::group_hash_axioms;

/// The default speaker number.
pub const DEFAULT_SPEAKER_ID: u32 = 8;

/// The default speaker number of a settings file that does not name one.
pub fn default_speaker_id() -> (r: u32)
    ensures
        r == DEFAULT_SPEAKER_ID,
{
    DEFAULT_SPEAKER_ID
}

/// The default engine of a settings file that does not name one.
pub fn default_engine() -> (r: String)
    ensures
        r@ == "voicevox"@,
{
    "voicevox".to_owned()
}

/// The default voice when no settings file exists.
pub fn default_voice() -> (r: UserVoice)
    ensures
        r.view_pair() == ("voicevox"@, DEFAULT_SPEAKER_ID),
{
    UserVoice { engine: EngineId::new(default_engine()), speaker: SpeakerId(default_speaker_id()) }
}

/// One user's entry of the settings file (new form).
#[derive(Debug, Clone)]
pub struct UserSettingDto {
    /// The speaker number.
    pub speaker_id: u32,
    /// The engine identifier.
    pub engine: String,
}

/// The contents of the settings file, with each JSON object as the list of
/// its entries.
#[derive(Debug, Clone)]
pub struct SettingsDto {
    /// The default speaker number.
    pub default_speaker_id: u32,
    /// The default engine.
    pub default_engine: String,
    /// The old form: user id → speaker number. Read only; never written.
    pub user_settings: Vec<(String, u32)>,
    /// The new form: user id → engine and speaker.
    pub user_settings_v2: Vec<(String, UserSettingDto)>,
}

/// The users of the new form: each entry whose key reads as a `u64` user id,
/// later entries winning.
pub open spec fn v2_users(entries: Seq<(String, UserSettingDto)>) -> Map<u64, (Seq<char>, u32)>
    decreases entries.len(),
{
    if entries.len() == 0 {
        Map::empty()
    } else {
        let m = v2_users(entries.drop_last());
        match parse_unsigned(entries.last().0@, u64::MAX as nat) {
            Some(uid) => m.insert(uid as u64, (entries.last().1.engine@, entries.last().1.speaker_id)),
            None => m,
        }
    }
}

/// The users of the old form, all with the VOICEVOX engine.
pub open spec fn v1_users(entries: Seq<(String, u32)>) -> Map<u64, (Seq<char>, u32)>
    decreases entries.len(),
{
    if entries.len() == 0 {
        Map::empty()
    } else {
        let m = v1_users(entries.drop_last());
        match parse_unsigned(entries.last().0@, u64::MAX as nat) {
            Some(uid) => m.insert(uid as u64, ("voicevox"@, entries.last().1)),
            None => m,
        }
    }
}

/// Whether reading `dto` migrates the old form: the new form is empty and the
/// old one is not.
pub open spec fn migrates(dto: SettingsDto) -> bool {
    dto.user_settings_v2@.len() == 0 && dto.user_settings@.len() > 0
}

/// The users read from `dto`.
pub open spec fn loaded_users(dto: SettingsDto) -> Map<u64, (Seq<char>, u32)> {
    if migrates(dto) {
        v1_users(dto.user_settings@)
    } else {
        v2_users(dto.user_settings_v2@)
    }
}

/// The users met along `pairs`, later pairs winning.
pub open spec fn pairs_users(pairs: Seq<(&u64, &UserVoice)>) -> Map<u64, (Seq<char>, u32)>
    decreases pairs.len(),
{
    if pairs.len() == 0 {
        Map::empty()
    } else {
        pairs_users(pairs.drop_last()).insert(*pairs.last().0, pairs.last().1.view_pair())
    }
}

proof fn lemma_pairs_users(pairs: Seq<(&u64, &UserVoice)>)
    ensures
        forall|k: u64|
            #[trigger] pairs_users(pairs).contains_key(k) <==> exists|i: int|
                0 <= i < pairs.len() && *pairs[i].0 == k,
        forall|k: u64|
            #[trigger] pairs_users(pairs).contains_key(k) ==> exists|i: int|
                0 <= i < pairs.len() && *pairs[i].0 == k && pairs_users(pairs)[k]
                    == pairs[i].1.view_pair(),
    decreases pairs.len(),
{
    if pairs.len() > 0 {
        let pre = pairs.drop_last();
        lemma_pairs_users(pre);
        assert forall|k: u64| #[trigger] pairs_users(pairs).contains_key(k) <==> exists|i: int|
            0 <= i < pairs.len() && *pairs[i].0 == k by {
            assert(pairs_users(pairs) == pairs_users(pre).insert(*pairs.last().0, pairs.last().1.view_pair()));
            if pairs_users(pairs).contains_key(k) && k != *pairs.last().0 {
                assert(pairs_users(pre).contains_key(k));
                let i = choose|i: int| 0 <= i < pre.len() && *pre[i].0 == k;
                assert(*pairs[i].0 == k);
            }
            if exists|i: int| 0 <= i < pairs.len() && *pairs[i].0 == k {
                let i = choose|i: int| 0 <= i < pairs.len() && *pairs[i].0 == k;
                if i < pairs.len() - 1 {
                    assert(*pre[i].0 == k);
                    assert(pairs_users(pre).contains_key(k));
                }
            }
        }
        assert forall|k: u64| #[trigger] pairs_users(pairs).contains_key(k) implies exists|i: int|
            0 <= i < pairs.len() && *pairs[i].0 == k && pairs_users(pairs)[k]
                == pairs[i].1.view_pair() by {
            if k == *pairs.last().0 {
                assert(*pairs[pairs.len() - 1].0 == k);
            } else {
                assert(pairs_users(pre).contains_key(k));
                let i = choose|i: int|
                    0 <= i < pre.len() && *pre[i].0 == k && pairs_users(pre)[k]
                        == pre[i].1.view_pair();
                assert(*pairs[i].0 == k);
            }
        }
    }
}

/// The voice settings: a default voice and the voice of each user who chose
/// one.
pub struct VoiceSettings {
    default_voice: UserVoice,
    users: HashMap<u64, UserVoice>,
}

impl VoiceSettings {
    /// The default voice as plain values.
    pub closed spec fn default_view(&self) -> (Seq<char>, u32) {
        self.default_voice.view_pair()
    }

    /// Each user's voice as plain values.
    pub closed spec fn users_view(&self) -> Map<u64, (Seq<char>, u32)> {
        self.users@.map_values(|v: UserVoice| v.view_pair())
    }

    /// Settings with `default_voice` and no user entries.
    pub fn new(default_voice: UserVoice) -> (r: Self)
        ensures
            r.default_view() == default_voice.view_pair(),
            r.users_view() == Map::<u64, (Seq<char>, u32)>::empty(),
    {
        let r = VoiceSettings { default_voice, users: HashMap::new() };
        assert(r.users_view() =~= Map::<u64, (Seq<char>, u32)>::empty());
        r
    }

    /// The settings read from the file's contents, and whether the old form
    /// was migrated (then the file is to be written back in the new form).
    pub fn from_dto(dto: SettingsDto) -> (r: (Self, bool))
        ensures
            r.0.default_view() == (dto.default_engine@, dto.default_speaker_id),
            r.0.users_view() == loaded_users(dto),
            r.1 == migrates(dto),
    {
        let default_voice = UserVoice {
            engine: EngineId::new(dto.default_engine),
            speaker: SpeakerId(dto.default_speaker_id),
        };
        let migrated = dto.user_settings_v2.len() == 0 && dto.user_settings.len() > 0;
        let mut settings = VoiceSettings::new(default_voice);
        if migrated {
            let entries = &dto.user_settings;
            let n = entries.len();
            for i in 0..n
                invariant
                    n == entries@.len(),
                    settings.default_view() == (dto.default_engine@, dto.default_speaker_id),
                    settings.users_view() == v1_users(entries@.take(i as int)),
            {
                assert(entries@.take(i + 1).drop_last() == entries@.take(i as int));
                assert(entries@.take(i + 1).last() == entries@[i as int]);
                let key = chars_of(entries[i].0.as_str());
                match parse_u64(key.as_slice()) {
                    Some(uid) => {
                        settings.insert_user(
                            uid,
                            UserVoice { engine: EngineId::voicevox(), speaker: SpeakerId(entries[i].1) },
                        );
                    },
                    None => {},
                }
            }
            assert(entries@.take(n as int) == entries@);
        } else {
            let entries = &dto.user_settings_v2;
            let n = entries.len();
            for i in 0..n
                invariant
                    n == entries@.len(),
                    settings.default_view() == (dto.default_engine@, dto.default_speaker_id),
                    settings.users_view() == v2_users(entries@.take(i as int)),
            {
                assert(entries@.take(i + 1).drop_last() == entries@.take(i as int));
                assert(entries@.take(i + 1).last() == entries@[i as int]);
                let key = chars_of(entries[i].0.as_str());
                match parse_u64(key.as_slice()) {
                    Some(uid) => {
                        settings.insert_user(
                            uid,
                            UserVoice {
                                engine: EngineId::new(entries[i].1.engine.clone()),
                                speaker: SpeakerId(entries[i].1.speaker_id),
                            },
                        );
                    },
                    None => {},
                }
            }
            assert(entries@.take(n as int) == entries@);
        }
        (settings, migrated)
    }

    /// The settings to start from: those of the file's contents when the file
    /// exists, else the default settings without users. The flag tells
    /// whether the file is to be written (a new file, or a migrated one).
    pub fn load_state(found: Option<SettingsDto>) -> (r: (Self, bool))
        ensures
            match found {
                Some(dto) => {
                    &&& r.0.default_view() == (dto.default_engine@, dto.default_speaker_id)
                    &&& r.0.users_view() == loaded_users(dto)
                    &&& r.1 == migrates(dto)
                },
                None => {
                    &&& r.0.default_view() == ("voicevox"@, DEFAULT_SPEAKER_ID)
                    &&& r.0.users_view() == Map::<u64, (Seq<char>, u32)>::empty()
                    &&& r.1
                },
            },
    {
        match found {
            Some(dto) => Self::from_dto(dto),
            None => (Self::new(default_voice()), true),
        }
    }

    fn insert_user(&mut self, uid: u64, voice: UserVoice)
        ensures
            final(self).default_view() == old(self).default_view(),
            final(self).users_view() == old(self).users_view().insert(uid, voice.view_pair()),
    {
        self.users.insert(uid, voice);
        assert(self.users_view() =~= old(self).users_view().insert(uid, voice.view_pair()));
    }

    /// The voice `user` reads with: the one stored for them, else the default.
    pub open spec fn voice_of(&self, user: u64) -> (Seq<char>, u32) {
        if self.users_view().contains_key(user) {
            self.users_view()[user]
        } else {
            self.default_view()
        }
    }

    /// The voice of `user`: the one stored for them, else the default voice.
    pub fn get(&self, user: UserId) -> (r: UserVoice)
        ensures
            r.view_pair() == self.voice_of(user.0),
    {
        match self.users.get(&user.0) {
            Some(v) => v.copied(),
            None => self.default_voice.copied(),
        }
    }

    /// Stores `voice` as the voice of `user`.
    pub fn set(&mut self, user: UserId, voice: UserVoice)
        ensures
            final(self).default_view() == old(self).default_view(),
            final(self).users_view() == old(self).users_view().insert(user.0, voice.view_pair()),
    {
        self.insert_user(user.0, voice);
    }

    proof fn lemma_iteration_covers(settings: &Self, s: Seq<(&u64, &UserVoice)>)
        requires
            s == spec_hash_map_iter(&settings.users).remaining(),
        ensures
            pairs_users(s) == settings.users_view(),
            s.len() == 0 ==> settings.users_view() == Map::<u64, (Seq<char>, u32)>::empty(),
    {
        lemma_pairs_users(s);
        assert(pairs_users(s) =~= settings.users_view()) by {
            assert forall|k: u64| #[trigger] settings.users@.contains_key(k) implies pairs_users(
                s,
            ).contains_key(k) by {
                assert(s.contains((&k, &settings.users@[k])));
                let i = choose|i: int| 0 <= i < s.len() && s[i] == (&k, &settings.users@[k]);
                assert(*s[i].0 == k);
            }
            assert forall|k: u64| #[trigger] pairs_users(s).contains_key(k) implies settings.users@.contains_key(k)
                && pairs_users(s)[k] == settings.users@[k].view_pair() by {
                let i = choose|i: int|
                    0 <= i < s.len() && *s[i].0 == k && pairs_users(s)[k] == s[i].1.view_pair();
                assert(settings.users@.contains_key(*s[i].0));
            }
        }
        if s.len() == 0 {
            assert(pairs_users(s) == Map::<u64, (Seq<char>, u32)>::empty());
        }
    }

    /// The file's contents for these settings (new form only).
    pub fn to_dto(&self) -> (r: SettingsDto)
        ensures
            r.default_speaker_id == self.default_view().1,
            r.default_engine@ == self.default_view().0,
            r.user_settings@.len() == 0,
            v2_users(r.user_settings_v2@) == self.users_view(),
            r.user_settings_v2@.len() == self.users_view().dom().len(),
            forall|i: int|
                0 <= i < r.user_settings_v2@.len() ==> exists|k: u64|
                    #![trigger self.users_view()[k]]
                    self.users_view().contains_key(k) && (#[trigger] r.user_settings_v2@[i]).0@
                        == decimal_digits(k as nat) && (
                        r.user_settings_v2@[i].1.engine@,
                        r.user_settings_v2@[i].1.speaker_id,
                    ) == self.users_view()[k],
    {
        let mut entries: Vec<(String, UserSettingDto)> = Vec::new();
        let ghost s = spec_hash_map_iter(&self.users).remaining();
        proof {
            Self::lemma_iteration_covers(self, s);
        }
        for kv in it: self.users.iter()
            invariant
                it.seq() == s,
                s == spec_hash_map_iter(&self.users).remaining(),
                s.len() == self.users@.dom().len(),
                forall|j: int|
                    0 <= j < s.len() ==> self.users@.contains_key(*(#[trigger] s[j]).0)
                        && self.users@[*s[j].0] == *s[j].1,
                pairs_users(it.seq()) == self.users_view(),
                v2_users(entries@) == pairs_users(it.seq().take(it.index() as int)),
                it.index() == it.seq().len() ==> v2_users(entries@) == self.users_view(),
                entries@.len() == it.index(),
                it.index() == it.seq().len() ==> entries@.len() == s.len(),
                forall|j: int|
                    0 <= j < entries@.len() ==> (#[trigger] entries@[j]).0@ == decimal_digits(
                        *s[j].0 as nat,
                    ) && (entries@[j].1.engine@, entries@[j].1.speaker_id) == s[j].1.view_pair(),
        {
            let (k, v) = kv;
            let ghost pre = entries@;
            entries.push(
                (
                    u64_to_decimal(*k),
                    UserSettingDto { speaker_id: v.speaker.0, engine: v.engine.as_str().to_owned() },
                ),
            );
            proof {
                lemma_parse_decimal(*k as nat, u64::MAX as nat);
                assert(entries@.drop_last() == pre);
                let idx = it.index() as int;
                assert(it.seq().take(idx + 1).drop_last() == it.seq().take(idx));
                assert(it.seq().take(idx + 1).last() == it.seq()[idx]);
                assert(idx + 1 == it.seq().len() ==> it.seq().take(idx + 1) =~= it.seq());
            }
        }
        assert(self.users_view().dom() =~= self.users@.dom());
        assert forall|i: int| 0 <= i < entries@.len() implies exists|k: u64|
            #![trigger self.users_view()[k]]
            self.users_view().contains_key(k) && (#[trigger] entries@[i]).0@ == decimal_digits(
                k as nat,
            ) && (entries@[i].1.engine@, entries@[i].1.speaker_id) == self.users_view()[k] by {
            let k = *s[i].0;
            assert(self.users@.contains_key(k));
            assert(self.users_view()[k] == self.users@[k].view_pair());
        }
        SettingsDto {
            default_speaker_id: self.default_voice.speaker.0,
            default_engine: self.default_voice.engine.as_str().to_owned(),
            user_settings: Vec::new(),
            user_settings_v2: entries,
        }
    }

    /// The default voice.
    pub fn default_voice(&self) -> (r: UserVoice)
        ensures
            r.view_pair() == self.default_view(),
    {
        self.default_voice.copied()
    }
}

/// After `user`'s voice is stored, reading it gives that voice back; every
/// other user reads as before, and the default is unchanged.
pub proof fn lemma_get_after_set(before: VoiceSettings, after: VoiceSettings, user: u64, voice: (Seq<char>, u32))
    requires
        after.default_view() == before.default_view(),
        after.users_view() == before.users_view().insert(user, voice),
    ensures
        after.voice_of(user) == voice,
        forall|other: u64| other != user ==> #[trigger] after.voice_of(other) == before.voice_of(other),
        after.default_view() == before.default_view(),
{
}

/// A user who never stored a voice reads with the default voice.
pub proof fn lemma_unset_user_reads_default(settings: VoiceSettings, user: u64)
    requires
        !settings.users_view().contains_key(user),
    ensures
        settings.voice_of(user) == settings.default_view(),
{
}

/// What the settings write to the file is read back unchanged: the contents
/// describe the same default and users, and reading them migrates nothing.
pub proof fn lemma_saved_settings_load_back(dto: SettingsDto, settings: VoiceSettings)
    requires
        dto.default_speaker_id == settings.default_view().1,
        dto.default_engine@ == settings.default_view().0,
        dto.user_settings@.len() == 0,
        v2_users(dto.user_settings_v2@) == settings.users_view(),
    ensures
        !migrates(dto),
        loaded_users(dto) == settings.users_view(),
        (dto.default_engine@, dto.default_speaker_id) == settings.default_view(),
{
}

} // verus!

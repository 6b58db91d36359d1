//! The application configuration, read from environment variables.
//!
//! The environment is handed in as the list of its `(name, value)` pairs (the
//! variables whose name and value are valid Unicode), in the order the process
//! holds them.

use vstd::prelude::*;

use crate::error::ConfigError;
use crate::text::{chars_of, parse_u64, parse_unsigned, string_of};

verus! {

/// The application configuration.
#[derive(Debug, Clone)]
pub struct Config {
    /// The Discord bot token.
    pub discord_token: String,
    /// The guild the slash commands are registered in.
    pub guild_id: u64,
    /// The initial text channel to read (replaced when `/join` runs).
    pub yomiage_channel_id: u64,
    /// The base URL of the VOICEVOX engine.
    pub voicevox_base_url: String,
    /// The base URL of the AIVoice2 engine.
    pub aivoice_base_url: String,
    /// The path of the user voice settings JSON file.
    pub voice_settings_path: String,
}

/// The value of the first variable of `env` named `name`.
pub open spec fn env_get(env: Seq<(String, String)>, name: Seq<char>) -> Option<Seq<char>>
    decreases env.len(),
{
    if env.len() == 0 {
        None
    } else if env[0].0@ == name {
        Some(env[0].1@)
    } else {
        env_get(env.drop_first(), name)
    }
}

/// The value of variable `name` when it is set and not empty.
pub open spec fn env_value(env: Seq<(String, String)>, name: Seq<char>) -> Option<Seq<char>> {
    match env_get(env, name) {
        Some(v) => if v.len() > 0 {
            Some(v)
        } else {
            None
        },
        None => None,
    }
}

/// The value of variable `name`, or `default` when it is unset or empty.
pub open spec fn env_or(env: Seq<(String, String)>, name: Seq<char>, default: Seq<char>) -> Seq<char> {
    match env_value(env, name) {
        Some(v) => v,
        None => default,
    }
}

/// `s` without its trailing slashes.
pub open spec fn trim_slashes(s: Seq<char>) -> Seq<char>
    decreases s.len(),
{
    if s.len() > 0 && s.last() == '/' {
        trim_slashes(s.drop_last())
    } else {
        s
    }
}

/// The variable `name` parses as a `u64`.
pub open spec fn env_u64(env: Seq<(String, String)>, name: Seq<char>) -> Option<nat> {
    match env_value(env, name) {
        Some(v) => parse_unsigned(v, u64::MAX as nat),
        None => None,
    }
}

fn lookup<'a>(env: &'a Vec<(String, String)>, name: &str) -> (r: Option<&'a String>)
    ensures
        r matches Some(v) ==> env_get(env@, name@) == Some(v@),
        r is None ==> env_get(env@, name@) is None,
{
    let key = name.to_owned();
    let n = env.len();
    assert(env@.skip(0) == env@);
    for i in 0..n
        invariant
            n == env@.len(),
            key@ == name@,
            env_get(env@, name@) == env_get(env@.skip(i as int), name@),
    {
        assert(env@.skip(i as int)[0] == env@[i as int]);
        assert(env@.skip(i as int).drop_first() == env@.skip(i + 1));
        if env[i].0 == key {
            return Some(&env[i].1);
        }
    }
    None
}

/// A required variable: its value, or `Missing` when unset or empty.
fn required(env: &Vec<(String, String)>, name: &'static str) -> (r: Result<String, ConfigError>)
    ensures
        r matches Ok(v) ==> env_value(env@, name@) == Some(v@),
        r matches Err(e) ==> env_value(env@, name@) is None && e == ConfigError::Missing(name),
{
    match lookup(env, name) {
        Some(v) => if !v.as_str().is_empty() {
            Ok(v.clone())
        } else {
            Err(ConfigError::Missing(name))
        },
        None => Err(ConfigError::Missing(name)),
    }
}

/// An optional variable: its value, or `default` when unset or empty.
fn optional(env: &Vec<(String, String)>, name: &str, default: &str) -> (r: String)
    ensures
        r@ == env_or(env@, name@, default@),
{
    match lookup(env, name) {
        Some(v) => if !v.as_str().is_empty() {
            v.clone()
        } else {
            default.to_owned()
        },
        None => default.to_owned(),
    }
}

/// A required variable parsed as a `u64`.
fn required_parse(env: &Vec<(String, String)>, name: &'static str) -> (r: Result<u64, ConfigError>)
    ensures
        r matches Ok(v) ==> env_u64(env@, name@) == Some(v as nat),
        r matches Err(e) ==> env_u64(env@, name@) is None && match e {
            ConfigError::Missing(n) => n == name && env_value(env@, name@) is None,
            ConfigError::Invalid { name: n, value } => n == name && env_value(env@, name@) == Some(
                value@,
            ),
        },
{
    let value = required(env, name)?;
    let digits = chars_of(value.as_str());
    match parse_u64(digits.as_slice()) {
        Some(v) => Ok(v),
        None => Err(ConfigError::Invalid { name, value }),
    }
}

/// Removes the trailing slashes of a base URL.
pub fn trim_url(url: String) -> (r: String)
    ensures
        r@ == trim_slashes(url@),
{
    let v = chars_of(url.as_str());
    let mut end = v.len();
    assert(v@.subrange(0, end as int) == v@);
    while end > 0 && v[end - 1] == '/'
        invariant
            end <= v@.len(),
            trim_slashes(v@) == trim_slashes(v@.subrange(0, end as int)),
        decreases end,
    {
        assert(v@.subrange(0, end as int).drop_last() == v@.subrange(0, end - 1));
        end = end - 1;
    }
    let mut out: Vec<char> = Vec::new();
    for i in 0..end
        invariant
            end <= v@.len(),
            out@ == v@.subrange(0, i as int),
    {
        out.push(v[i]);
        assert(v@.subrange(0, i + 1) == v@.subrange(0, i as int).push(v@[i as int]));
    }
    string_of(&out)
}

impl Config {
    /// Reads the configuration from the environment `env`.
    ///
    /// `DISCORD_TOKEN`, `DISCORD_GUILD_ID` and `DISCORD_YOMIAGE_CH_ID` are
    /// required (checked in that order); the two identifiers must parse as
    /// `u64`. The engine URLs and the settings path have defaults; trailing
    /// slashes are removed from the URLs.
    pub fn from_env(env: &Vec<(String, String)>) -> (r: Result<Self, ConfigError>)
        ensures
            r is Ok <==> env_value(env@, "DISCORD_TOKEN"@) is Some && env_u64(
                env@,
                "DISCORD_GUILD_ID"@,
            ) is Some && env_u64(env@, "DISCORD_YOMIAGE_CH_ID"@) is Some,
            r matches Ok(c) ==> {
                &&& env_value(env@, "DISCORD_TOKEN"@) == Some(c.discord_token@)
                &&& env_u64(env@, "DISCORD_GUILD_ID"@) == Some(c.guild_id as nat)
                &&& env_u64(env@, "DISCORD_YOMIAGE_CH_ID"@) == Some(c.yomiage_channel_id as nat)
                &&& c.voicevox_base_url@ == trim_slashes(
                    env_or(env@, "VOICEVOX_BASE_URL"@, "http://localhost:50021"@),
                )
                &&& c.aivoice_base_url@ == trim_slashes(
                    env_or(env@, "AIVOICE2_ENGINE_BASE_URL"@, "http://localhost:8000"@),
                )
                &&& c.voice_settings_path@ == env_or(
                    env@,
                    "VOICE_SETTINGS_PATH"@,
                    "data/voice_settings.json"@,
                )
            },
            r matches Err(e) ==> match e {
                ConfigError::Missing(n) => {
                    ||| n@ == "DISCORD_TOKEN"@ && env_value(env@, "DISCORD_TOKEN"@) is None
                    ||| n@ == "DISCORD_GUILD_ID"@ && env_value(env@, "DISCORD_TOKEN"@) is Some
                        && env_value(env@, "DISCORD_GUILD_ID"@) is None
                    ||| n@ == "DISCORD_YOMIAGE_CH_ID"@ && env_value(env@, "DISCORD_TOKEN"@) is Some
                        && env_u64(env@, "DISCORD_GUILD_ID"@) is Some && env_value(
                        env@,
                        "DISCORD_YOMIAGE_CH_ID"@,
                    ) is None
                },
                ConfigError::Invalid { name, value } => {
                    ||| name@ == "DISCORD_GUILD_ID"@ && env_value(env@, "DISCORD_TOKEN"@) is Some
                        && env_value(env@, "DISCORD_GUILD_ID"@) == Some(value@) && env_u64(
                        env@,
                        "DISCORD_GUILD_ID"@,
                    ) is None
                    ||| name@ == "DISCORD_YOMIAGE_CH_ID"@ && env_value(env@, "DISCORD_TOKEN"@) is Some
                        && env_u64(env@, "DISCORD_GUILD_ID"@) is Some && env_value(
                        env@,
                        "DISCORD_YOMIAGE_CH_ID"@,
                    ) == Some(value@) && env_u64(env@, "DISCORD_YOMIAGE_CH_ID"@) is None
                },
            },
    {
        let discord_token = required(env, "DISCORD_TOKEN")?;
        let guild_id = required_parse(env, "DISCORD_GUILD_ID")?;
        let yomiage_channel_id = required_parse(env, "DISCORD_YOMIAGE_CH_ID")?;
        let voicevox_base_url = trim_url(optional(env, "VOICEVOX_BASE_URL", "http://localhost:50021"));
        let aivoice_base_url = trim_url(optional(env, "AIVOICE2_ENGINE_BASE_URL", "http://localhost:8000"));
        let voice_settings_path = optional(env, "VOICE_SETTINGS_PATH", "data/voice_settings.json");
        Ok(
            Config {
                discord_token,
                guild_id,
                yomiage_channel_id,
                voicevox_base_url,
                aivoice_base_url,
                voice_settings_path,
            },
        )
    }
}

} // verus!

verus! {

/// A trimmed base URL never ends with `/`.
pub proof fn lemma_trimmed_url_has_no_trailing_slash(url: Seq<char>)
    ensures
        trim_slashes(url).len() == 0 || trim_slashes(url).last() != '/',
    decreases url.len(),
{
    if url.len() > 0 && url.last() == '/' {
        lemma_trimmed_url_has_no_trailing_slash(url.drop_last());
    }
}

} // verus!

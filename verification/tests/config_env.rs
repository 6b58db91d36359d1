use yomiage::config::{trim_url, Config};
use yomiage::error::ConfigError;

fn env(pairs: &[(&str, &str)]) -> Vec<(String, String)> {
    pairs.iter().map(|(k, v)| ((*k).to_owned(), (*v).to_owned())).collect()
}

#[test]
fn full_environment() {
    let c = Config::from_env(&env(&[
        ("DISCORD_TOKEN", "tok"),
        ("DISCORD_GUILD_ID", "123"),
        ("DISCORD_YOMIAGE_CH_ID", "456"),
        ("VOICEVOX_BASE_URL", "http://vv:50021//"),
        ("AIVOICE2_ENGINE_BASE_URL", ""),
    ]))
    .unwrap();
    assert_eq!(c.discord_token, "tok");
    assert_eq!(c.guild_id, 123);
    assert_eq!(c.yomiage_channel_id, 456);
    assert_eq!(c.voicevox_base_url, "http://vv:50021");
    assert_eq!(c.aivoice_base_url, "http://localhost:8000");
    assert_eq!(c.voice_settings_path, "data/voice_settings.json");
}

#[test]
fn missing_and_invalid() {
    match Config::from_env(&env(&[("DISCORD_GUILD_ID", "1")])) {
        Err(ConfigError::Missing(n)) => assert_eq!(n, "DISCORD_TOKEN"),
        _ => panic!(),
    }
    match Config::from_env(&env(&[("DISCORD_TOKEN", "t"), ("DISCORD_GUILD_ID", "")])) {
        Err(ConfigError::Missing(n)) => assert_eq!(n, "DISCORD_GUILD_ID"),
        _ => panic!(),
    }
    match Config::from_env(&env(&[("DISCORD_TOKEN", "t"), ("DISCORD_GUILD_ID", "x1")])) {
        Err(ConfigError::Invalid { name, value }) => {
            assert_eq!(name, "DISCORD_GUILD_ID");
            assert_eq!(value, "x1");
        }
        _ => panic!(),
    }
    match Config::from_env(&env(&[("DISCORD_TOKEN", "t"), ("DISCORD_GUILD_ID", "1"), ("DISCORD_YOMIAGE_CH_ID", "-3")])) {
        Err(ConfigError::Invalid { name, value }) => {
            assert_eq!(name, "DISCORD_YOMIAGE_CH_ID");
            assert_eq!(value, "-3");
        }
        _ => panic!(),
    }
}

#[test]
fn first_occurrence_wins() {
    let c = Config::from_env(&env(&[
        ("DISCORD_TOKEN", "a"),
        ("DISCORD_TOKEN", "b"),
        ("DISCORD_GUILD_ID", "1"),
        ("DISCORD_YOMIAGE_CH_ID", "2"),
    ]))
    .unwrap();
    assert_eq!(c.discord_token, "a");
}

#[test]
fn trim_url_removes_all_trailing_slashes() {
    assert_eq!(trim_url("http://a/b///".to_owned()), "http://a/b");
    assert_eq!(trim_url("///".to_owned()), "");
    assert_eq!(trim_url("http://a".to_owned()), "http://a");
}

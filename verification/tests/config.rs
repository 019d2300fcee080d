use music_bot::config::{Config, ConfigError, ConfigToml, ConfigTomlDiscord, ConfigTomlYoutube};

fn discord(token: Option<&str>, guild: Option<&str>) -> Option<ConfigTomlDiscord> {
    Some(ConfigTomlDiscord {
        bot_token: token.map(|t| t.to_string()),
        guild_id: guild.map(|g| g.to_string()),
    })
}

fn empty_youtube() -> ConfigTomlYoutube {
    ConfigTomlYoutube {
        project_id: None,
        auth_type: None,
        private_key_id: None,
        private_key: None,
        client_email: None,
        client_id: None,
        auth_uri: None,
        token_uri: None,
        auth_provider_x509_cert_url: None,
        client_x509_cert_url: None,
        universe_domain: None,
    }
}

#[test]
fn unparsable_file_misses_discord() {
    let err = Config::from_toml(None).err().unwrap();
    assert_eq!(err, ConfigError::MissingDiscordConfig);
    assert_eq!(err.message(), "MISSING DISCORD CONFIG");
}

#[test]
fn missing_discord_fields() {
    let parsed = ConfigToml { discord: None, youtube: None };
    assert_eq!(Config::from_toml(Some(parsed)).err(), Some(ConfigError::MissingDiscordConfig));
    let parsed = ConfigToml { discord: discord(None, Some("1")), youtube: None };
    let err = Config::from_toml(Some(parsed)).err().unwrap();
    assert_eq!(err, ConfigError::MissingBotToken);
    assert_eq!(err.message(), "Missing discord bot token field");
    let parsed = ConfigToml { discord: discord(Some("t"), None), youtube: None };
    let err = Config::from_toml(Some(parsed)).err().unwrap();
    assert_eq!(err, ConfigError::MissingGuildId);
    assert_eq!(err.message(), "Missing discord guild_id field");
    let parsed = ConfigToml { discord: discord(None, None), youtube: None };
    assert_eq!(Config::from_toml(Some(parsed)).err(), Some(ConfigError::MissingBotToken));
}

#[test]
fn missing_youtube_reads_unknown() {
    let parsed = ConfigToml { discord: discord(Some("tok"), Some("123")), youtube: None };
    let config = Config::from_toml(Some(parsed)).ok().unwrap();
    assert_eq!(config.discord_token, "tok");
    assert_eq!(config.guild_id, "123");
    assert_eq!(config.youtube_project_id, "unknown");
    assert_eq!(config._youtube_universe_domain, "unknown");
}

#[test]
fn youtube_fields_kept_or_unknown() {
    let mut yt = empty_youtube();
    yt.project_id = Some("proj".to_string());
    yt.auth_type = Some("service_account".to_string());
    yt.token_uri = Some("https://t".to_string());
    let parsed = ConfigToml { discord: discord(Some("tok"), Some("1")), youtube: Some(yt) };
    let config = Config::from_toml(Some(parsed)).ok().unwrap();
    assert_eq!(config.youtube_project_id, "proj");
    assert_eq!(config.youtube_auth_type, "service_account");
    assert_eq!(config.youtube_token_uri, "https://t");
    assert_eq!(config.youtube_private_key, "unknown");
    assert_eq!(config.youtube_client_email, "unknown");
}

#[test]
fn first_readable_file_wins() {
    assert_eq!(
        Config::first_readable(vec![None, Some("b".to_string()), Some("c".to_string())]),
        "b"
    );
    assert_eq!(Config::first_readable(vec![None, None]), "");
    assert_eq!(Config::first_readable(vec![]), "");
}

fn sample() -> Config {
    let parsed = ConfigToml { discord: discord(Some("tok"), Some("1")), youtube: None };
    Config::from_toml(Some(parsed)).ok().unwrap()
}

#[test]
fn get_loads_once() {
    let mut slot: Option<Config> = None;
    let mut loads = 0;
    {
        let config = Config::get(&mut slot, || {
            loads += 1;
            sample()
        });
        assert_eq!(config.discord_token, "tok");
    }
    let config = Config::get(&mut slot, || panic!("loaded twice"));
    assert_eq!(config.guild_id, "1");
    assert_eq!(loads, 1);
}

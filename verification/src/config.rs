use vstd::prelude::*;

verus! {

/// The `[discord]` table of the configuration file, as parsed.
pub struct ConfigTomlDiscord {
    pub bot_token: Option<String>,
    pub guild_id: Option<String>,
}

/// The `[youtube]` table of the configuration file, as parsed (the key
/// `type` is held in `auth_type`).
pub struct ConfigTomlYoutube {
    pub project_id: Option<String>,
    pub auth_type: Option<String>,
    pub private_key_id: Option<String>,
    pub private_key: Option<String>,
    pub client_email: Option<String>,
    pub client_id: Option<String>,
    pub auth_uri: Option<String>,
    pub token_uri: Option<String>,
    pub auth_provider_x509_cert_url: Option<String>,
    pub client_x509_cert_url: Option<String>,
    pub universe_domain: Option<String>,
}

/// The configuration file, as parsed.
pub struct ConfigToml {
    pub discord: Option<ConfigTomlDiscord>,
    pub youtube: Option<ConfigTomlYoutube>,
}

/// The bot's settings.
pub struct Config {
    pub discord_token: String,
    pub guild_id: String,
    pub youtube_project_id: String,
    pub youtube_auth_type: String,
    pub youtube_private_key_id: String,
    pub youtube_private_key: String,
    pub youtube_client_email: String,
    pub youtube_client_id: String,
    pub youtube_auth_uri: String,
    pub youtube_token_uri: String,
    pub youtube_auth_provider_x509_cert_url: String,
    pub youtube_client_x509_cert_url: String,
    pub _youtube_universe_domain: String,
}

/// Why a configuration cannot be used; the bot does not start without
/// its Discord settings.
#[derive(Debug, PartialEq, Eq, Structural)]
pub enum ConfigError {
    /// No `[discord]` table, or the file could not be parsed at all.
    MissingDiscordConfig,
    /// The `[discord]` table has no `bot_token`.
    MissingBotToken,
    /// The `[discord]` table has no `guild_id`.
    MissingGuildId,
}

/// The text of a configuration error.
pub open spec fn config_error_text(error: ConfigError) -> Seq<char> {
    match error {
        ConfigError::MissingDiscordConfig => "MISSING DISCORD CONFIG"@,
        ConfigError::MissingBotToken => "Missing discord bot token field"@,
        ConfigError::MissingGuildId => "Missing discord guild_id field"@,
    }
}

impl ConfigError {
    /// The text the bot stops with.
    pub fn message(&self) -> (text: &'static str)
        ensures
            text@ == config_error_text(*self),
    {
        match self {
            ConfigError::MissingDiscordConfig => "MISSING DISCORD CONFIG",
            ConfigError::MissingBotToken => "Missing discord bot token field",
            ConfigError::MissingGuildId => "Missing discord guild_id field",
        }
    }
}

/// A YouTube setting, with `"unknown"` standing for a missing one.
pub open spec fn or_unknown(value: Option<String>) -> Seq<char> {
    match value {
        Some(s) => s@,
        None => "unknown"@,
    }
}

/// The `[youtube]` table, every key missing where there is no table.
pub open spec fn youtube_section(parsed: ConfigToml) -> ConfigTomlYoutube {
    match parsed.youtube {
        Some(y) => y,
        None => ConfigTomlYoutube {
            project_id: None,
            auth_type: None,
            private_key_id: None,
            private_key: None,
            client_email: None,
            client_id: None,
            auth_uri: None,
            token_uri: None,
            auth_provider_x509_cert_url: None,
            client_x509_cert_url: None,
            universe_domain: None,
        },
    }
}

/// The error a parsed file gives, if any: the Discord table and its two
/// keys are required, checked in that order.
pub open spec fn config_problem(parsed: Option<ConfigToml>) -> Option<ConfigError> {
    match parsed {
        None => Some(ConfigError::MissingDiscordConfig),
        Some(p) => match p.discord {
            None => Some(ConfigError::MissingDiscordConfig),
            Some(d) => if d.bot_token is None {
                Some(ConfigError::MissingBotToken)
            } else if d.guild_id is None {
                Some(ConfigError::MissingGuildId)
            } else {
                None
            },
        },
    }
}

/// `config` holds the settings of the parsed file `p`.
pub open spec fn config_matches(config: Config, p: ConfigToml) -> bool {
    let d = p.discord.unwrap();
    let y = youtube_section(p);
    &&& config.discord_token@ == d.bot_token.unwrap()@
    &&& config.guild_id@ == d.guild_id.unwrap()@
    &&& config.youtube_project_id@ == or_unknown(y.project_id)
    &&& config.youtube_auth_type@ == or_unknown(y.auth_type)
    &&& config.youtube_private_key_id@ == or_unknown(y.private_key_id)
    &&& config.youtube_private_key@ == or_unknown(y.private_key)
    &&& config.youtube_client_email@ == or_unknown(y.client_email)
    &&& config.youtube_client_id@ == or_unknown(y.client_id)
    &&& config.youtube_auth_uri@ == or_unknown(y.auth_uri)
    &&& config.youtube_token_uri@ == or_unknown(y.token_uri)
    &&& config.youtube_auth_provider_x509_cert_url@ == or_unknown(y.auth_provider_x509_cert_url)
    &&& config.youtube_client_x509_cert_url@ == or_unknown(y.client_x509_cert_url)
    &&& config._youtube_universe_domain@ == or_unknown(y.universe_domain)
}

/// The first content among `reads` that is present; empty where none is.
pub open spec fn first_read(reads: Seq<Option<String>>) -> Seq<char>
    decreases reads.len(),
{
    if reads.len() == 0 {
        Seq::empty()
    } else if reads[0] is Some {
        reads[0].unwrap()@
    } else {
        first_read(reads.drop_first())
    }
}

/// The content used is that of the lowest-numbered candidate that could be
/// read: with `reads[i]` present and every earlier read missing, it is
/// `reads[i]`'s content. In particular a readable first candidate is used.
pub proof fn lemma_first_read_takes_lowest(reads: Seq<Option<String>>, i: int)
    requires
        0 <= i < reads.len(),
        reads[i] is Some,
        forall|j: int| 0 <= j < i ==> #[trigger] reads[j] is None,
    ensures
        first_read(reads) == reads[i].unwrap()@,
    decreases i,
{
    if i > 0 {
        assert forall|j: int| 0 <= j < i - 1 implies #[trigger] reads.drop_first()[j] is None by {
            assert(reads[j + 1] is None);
        }
        lemma_first_read_takes_lowest(reads.drop_first(), i - 1);
    }
}

/// Where no candidate could be read, the content is empty.
pub proof fn lemma_first_read_none(reads: Seq<Option<String>>)
    requires
        forall|j: int| 0 <= j < reads.len() ==> #[trigger] reads[j] is None,
    ensures
        first_read(reads) == Seq::<char>::empty(),
    decreases reads.len(),
{
    if reads.len() > 0 {
        assert forall|j: int| 0 <= j < reads.len() - 1 implies #[trigger] reads.drop_first()[j] is None by {
            assert(reads[j + 1] is None);
        }
        lemma_first_read_none(reads.drop_first());
    }
}

/// Each setting holds the key of the same name in the parsed file: the
/// Discord token and guild id are the table's `bot_token` and `guild_id`,
/// and each YouTube setting is the `[youtube]` key of the same name, or
/// `"unknown"` where that key or the whole table is missing.
pub proof fn lemma_settings_follow_keys(config: Config, parsed: ConfigToml)
    requires
        config_problem(Some(parsed)) is None,
        config_matches(config, parsed),
    ensures
        parsed.discord matches Some(d) && d.bot_token matches Some(t) && config.discord_token@ == t@,
        parsed.discord matches Some(d) && d.guild_id matches Some(g) && config.guild_id@ == g@,
        parsed.youtube matches Some(y) ==> (y.project_id matches Some(v) ==> config.youtube_project_id@ == v@),
        !(parsed.youtube matches Some(y) && y.project_id is Some) ==> config.youtube_project_id@ == "unknown"@,
        parsed.youtube matches Some(y) ==> (y.auth_type matches Some(v) ==> config.youtube_auth_type@ == v@),
        !(parsed.youtube matches Some(y) && y.auth_type is Some) ==> config.youtube_auth_type@ == "unknown"@,
        parsed.youtube matches Some(y) ==> (y.private_key_id matches Some(v) ==> config.youtube_private_key_id@ == v@),
        !(parsed.youtube matches Some(y) && y.private_key_id is Some) ==> config.youtube_private_key_id@ == "unknown"@,
        parsed.youtube matches Some(y) ==> (y.private_key matches Some(v) ==> config.youtube_private_key@ == v@),
        !(parsed.youtube matches Some(y) && y.private_key is Some) ==> config.youtube_private_key@ == "unknown"@,
        parsed.youtube matches Some(y) ==> (y.client_email matches Some(v) ==> config.youtube_client_email@ == v@),
        !(parsed.youtube matches Some(y) && y.client_email is Some) ==> config.youtube_client_email@ == "unknown"@,
        parsed.youtube matches Some(y) ==> (y.client_id matches Some(v) ==> config.youtube_client_id@ == v@),
        !(parsed.youtube matches Some(y) && y.client_id is Some) ==> config.youtube_client_id@ == "unknown"@,
        parsed.youtube matches Some(y) ==> (y.auth_uri matches Some(v) ==> config.youtube_auth_uri@ == v@),
        !(parsed.youtube matches Some(y) && y.auth_uri is Some) ==> config.youtube_auth_uri@ == "unknown"@,
        parsed.youtube matches Some(y) ==> (y.token_uri matches Some(v) ==> config.youtube_token_uri@ == v@),
        !(parsed.youtube matches Some(y) && y.token_uri is Some) ==> config.youtube_token_uri@ == "unknown"@,
        parsed.youtube matches Some(y) ==> (y.auth_provider_x509_cert_url matches Some(v) ==> config.youtube_auth_provider_x509_cert_url@ == v@),
        !(parsed.youtube matches Some(y) && y.auth_provider_x509_cert_url is Some) ==> config.youtube_auth_provider_x509_cert_url@ == "unknown"@,
        parsed.youtube matches Some(y) ==> (y.client_x509_cert_url matches Some(v) ==> config.youtube_client_x509_cert_url@ == v@),
        !(parsed.youtube matches Some(y) && y.client_x509_cert_url is Some) ==> config.youtube_client_x509_cert_url@ == "unknown"@,
        parsed.youtube matches Some(y) ==> (y.universe_domain matches Some(v) ==> config._youtube_universe_domain@ == v@),
        !(parsed.youtube matches Some(y) && y.universe_domain is Some) ==> config._youtube_universe_domain@ == "unknown"@,
{
}

fn value_or_unknown(value: Option<String>) -> (text: String)
    ensures
        text@ == or_unknown(value),
{
    match value {
        Some(s) => s,
        None => "unknown".to_owned(),
    }
}

impl Config {
    /// The content of the first configuration file that could be read, in
    /// the order tried; empty where none could.
    pub fn first_readable(reads: Vec<Option<String>>) -> (content: String)
        ensures
            content@ == first_read(reads@),
    {
        let ghost original = reads@;
        assert(original.subrange(0, original.len() as int) =~= original);
        let mut i: usize = 0;
        while i < reads.len()
            invariant
                0 <= i <= reads.len(),
                reads@ == original,
                first_read(original) == first_read(original.subrange(i as int, original.len() as int)),
            decreases reads.len() - i,
        {
            if let Some(found) = &reads[i] {
                assert(reads@[i as int] == original.subrange(i as int, original.len() as int)[0]);
                return found.clone();
            }
            assert(original.subrange(i as int, original.len() as int).drop_first() =~= original.subrange(
                i + 1,
                original.len() as int,
            ));
            i = i + 1;
        }
        assert(original.subrange(i as int, original.len() as int).len() == 0);
        proof {
            reveal_strlit("");
        }
        "".to_owned()
    }

    /// Assembles the settings from the parsed file (`None` where the file
    /// could not be parsed). The Discord table with its bot token and
    /// guild id is required; a missing YouTube table or key reads as
    /// `"unknown"`.
    pub fn from_toml(parsed: Option<ConfigToml>) -> (config: Result<Config, ConfigError>)
        ensures
            match config {
                Ok(c) => config_problem(parsed) is None && config_matches(c, parsed.unwrap()),
                Err(e) => config_problem(parsed) == Some(e),
            },
    {
        let parsed = match parsed {
            Some(p) => p,
            None => return Err(ConfigError::MissingDiscordConfig),
        };
        let ghost whole = parsed;
        let (discord_token, guild_id) = match parsed.discord {
            Some(discord) => {
                let discord_token = match discord.bot_token {
                    Some(t) => t,
                    None => return Err(ConfigError::MissingBotToken),
                };
                let guild_id = match discord.guild_id {
                    Some(g) => g,
                    None => return Err(ConfigError::MissingGuildId),
                };
                (discord_token, guild_id)
            },
            None => return Err(ConfigError::MissingDiscordConfig),
        };
        let yt = match parsed.youtube {
            Some(yt) => yt,
            None => ConfigTomlYoutube {
                project_id: None,
                auth_type: None,
                private_key_id: None,
                private_key: None,
                client_email: None,
                client_id: None,
                auth_uri: None,
                token_uri: None,
                auth_provider_x509_cert_url: None,
                client_x509_cert_url: None,
                universe_domain: None,
            },
        };
        assert(yt == youtube_section(whole));
        Ok(Config {
            discord_token,
            guild_id,
            youtube_project_id: value_or_unknown(yt.project_id),
            youtube_auth_type: value_or_unknown(yt.auth_type),
            youtube_private_key_id: value_or_unknown(yt.private_key_id),
            youtube_private_key: value_or_unknown(yt.private_key),
            youtube_client_email: value_or_unknown(yt.client_email),
            youtube_client_id: value_or_unknown(yt.client_id),
            youtube_auth_uri: value_or_unknown(yt.auth_uri),
            youtube_token_uri: value_or_unknown(yt.token_uri),
            youtube_auth_provider_x509_cert_url: value_or_unknown(yt.auth_provider_x509_cert_url),
            youtube_client_x509_cert_url: value_or_unknown(yt.client_x509_cert_url),
            _youtube_universe_domain: value_or_unknown(yt.universe_domain),
        })
    }

    /// The settings held in `slot`, loaded once by `load` where the slot is
    /// still empty; later calls give back what the first one stored.
    pub fn get<'a, F: FnOnce() -> Config>(slot: &'a mut Option<Config>, load: F) -> (config:
        &'a Config)
        requires
            *old(slot) is None ==> call_requires(load, ()),
        ensures
            *final(slot) == Some(*config),
            *old(slot) is Some ==> *final(slot) == *old(slot),
            *old(slot) is None ==> call_ensures(load, (), *config),
    {
        if slot.is_none() {
            *slot = Some(load());
        }
        match slot {
            Some(config) => config,
            None => vstd::pervasive::unreached(),
        }
    }
}

} // verus!

//! The bot's configuration: who it is, where it goes, and where it keeps its data.

use vstd::prelude::*;

verus! {

/// Configuration for the chatbot.
#[derive(Debug, PartialEq, Eq)]
pub struct Config {
    /// The client id of the application.
    pub client_id: String,
    /// The channel to connect to.
    pub channel_name: String,
    /// The bot's own user name.
    pub bot_username: String,
    /// The directory for the token and other data.
    pub data_dir: String,
}

pub struct ConfigView {
    pub client_id: Seq<char>,
    pub channel_name: Seq<char>,
    pub bot_username: Seq<char>,
    pub data_dir: Seq<char>,
}

impl View for Config {
    type V = ConfigView;

    open spec fn view(&self) -> ConfigView {
        ConfigView {
            client_id: self.client_id@,
            channel_name: self.channel_name@,
            bot_username: self.bot_username@,
            data_dir: self.data_dir@,
        }
    }
}

impl DeepView for Config {
    type V = ConfigView;

    open spec fn deep_view(&self) -> ConfigView {
        self.view()
    }
}

/// A setting that has to be there and is not.
#[derive(Debug, Clone, Copy, PartialEq, Eq, Structural)]
pub enum ConfigError {
    MissingClientId,
    MissingChannel,
    MissingBotUsername,
}

impl View for ConfigError {
    type V = ConfigError;

    open spec fn view(&self) -> ConfigError {
        *self
    }
}

impl DeepView for ConfigError {
    type V = ConfigError;

    open spec fn deep_view(&self) -> ConfigError {
        *self
    }
}

/// The sentence that reports a missing setting.
pub open spec fn config_error_message(error: ConfigError) -> Seq<char> {
    match error {
        ConfigError::MissingClientId => "TWITCH_CLIENT_ID environment variable not set"@,
        ConfigError::MissingChannel => "TWITCH_CHANNEL environment variable not set"@,
        ConfigError::MissingBotUsername => "TWITCH_BOT_USERNAME environment variable not set"@,
    }
}

impl ConfigError {
    /// The sentence that reports this error.
    pub fn message(&self) -> (r: String)
        ensures
            r@ == config_error_message(*self),
    {
        match self {
            ConfigError::MissingClientId => String::from_str(
                "TWITCH_CLIENT_ID environment variable not set",
            ),
            ConfigError::MissingChannel => String::from_str(
                "TWITCH_CHANNEL environment variable not set",
            ),
            ConfigError::MissingBotUsername => String::from_str(
                "TWITCH_BOT_USERNAME environment variable not set",
            ),
        }
    }
}

/// The configuration that the environment's settings give: the three that have to
/// be there, asked for in the order client id, channel, user name, and the data
/// directory, which is `./data` where it is not set.
pub open spec fn config_from(
    client_id: Option<Seq<char>>,
    channel_name: Option<Seq<char>>,
    bot_username: Option<Seq<char>>,
    data_dir: Option<Seq<char>>,
) -> Result<ConfigView, ConfigError> {
    match (client_id, channel_name, bot_username) {
        (None, _, _) => Err(ConfigError::MissingClientId),
        (Some(_), None, _) => Err(ConfigError::MissingChannel),
        (Some(_), Some(_), None) => Err(ConfigError::MissingBotUsername),
        (Some(client_id), Some(channel_name), Some(bot_username)) => Ok(
            ConfigView {
                client_id,
                channel_name,
                bot_username,
                data_dir: match data_dir {
                    Some(dir) => dir,
                    None => "./data"@,
                },
            },
        ),
    }
}

impl Config {
    /// The configuration that the settings of the environment give, each handed
    /// over as it was found there: `TWITCH_CLIENT_ID`, `TWITCH_CHANNEL`,
    /// `TWITCH_BOT_USERNAME` and `DATA_DIR`.
    pub fn from_env(
        client_id: Option<String>,
        channel_name: Option<String>,
        bot_username: Option<String>,
        data_dir: Option<String>,
    ) -> (r: Result<Config, ConfigError>)
        ensures
            crate::http::result_view(r) == config_from(
                client_id.deep_view(),
                channel_name.deep_view(),
                bot_username.deep_view(),
                data_dir.deep_view(),
            ),
    {
        let client_id = match client_id {
            Some(value) => value,
            None => {
                return Err(ConfigError::MissingClientId);
            },
        };
        let channel_name = match channel_name {
            Some(value) => value,
            None => {
                return Err(ConfigError::MissingChannel);
            },
        };
        let bot_username = match bot_username {
            Some(value) => value,
            None => {
                return Err(ConfigError::MissingBotUsername);
            },
        };
        let data_dir = match data_dir {
            Some(value) => value,
            None => String::from_str("./data"),
        };
        Ok(Config { client_id, channel_name, bot_username, data_dir })
    }

    /// A configuration with exactly these values.
    pub fn new(client_id: String, channel_name: String, bot_username: String, data_dir: String) -> (r:
        Self)
        ensures
            r@ == (ConfigView {
                client_id: client_id@,
                channel_name: channel_name@,
                bot_username: bot_username@,
                data_dir: data_dir@,
            }),
    {
        Config { client_id, channel_name, bot_username, data_dir }
    }

    /// Where the token is stored: `oauth_token.json` in the data directory.
    pub fn get_token_path(&self) -> (r: String)
        ensures
            r@ == self@.data_dir + "/oauth_token.json"@,
    {
        crate::text::concat(self.data_dir.as_str(), "/oauth_token.json")
    }

    /// Where the known users are stored: `known_users.txt` in the data directory.
    pub fn get_users_path(&self) -> (r: String)
        ensures
            r@ == self@.data_dir + "/known_users.txt"@,
    {
        crate::text::concat(self.data_dir.as_str(), "/known_users.txt")
    }

    /// Puts `channel` in the place of the configured channel, if one is given.
    pub fn override_channel(&mut self, channel: Option<String>)
        ensures
            final(self)@ == (ConfigView {
                channel_name: match channel {
                    Some(name) => name@,
                    None => old(self)@.channel_name,
                },
                ..old(self)@
            }),
    {
        match channel {
            Some(name) => {
                self.channel_name = name;
            },
            None => {},
        }
    }
}

} // verus!

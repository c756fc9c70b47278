//! The settings of the bot, from its environment variables.
use vstd::prelude::*;

use crate::models::song_title::opt_view;

verus! {

/// The settings of the bot.
#[derive(Debug, Clone)]
pub struct DiscordConfig {
    pub bot_token: String,
    pub dev_user_id: String,
    pub song_info_server_url: String,
    pub database_url: String,
    pub data_dir: String,
}

/// A setting that the environment lacks: the name of its variable.
#[derive(Debug, Clone, Copy)]
pub enum ConfigError {
    MissingEnvVar(&'static str),
}

impl DiscordConfig {
    /// The settings from the values of `DISCORD_BOT_TOKEN`, `DISCORD_DEV_USER_ID`,
    /// `SONG_INFO_SERVER_URL` (default `http://localhost:3001`), `DATA_DIR` (default `data`) and
    /// `DISCORD_BOT_DATABASE_URL` (default a SQLite file in the data directory).
    pub fn from_env_values(
        bot_token: Option<String>,
        dev_user_id: Option<String>,
        song_info_server_url: Option<String>,
        data_dir: Option<String>,
        database_url: Option<String>,
    ) -> (r: Result<Self, ConfigError>)
        ensures
            bot_token is None ==> (r matches Err(ConfigError::MissingEnvVar(n)) && n@ == "DISCORD_BOT_TOKEN"@),
            bot_token is Some && dev_user_id is None ==> (r matches Err(ConfigError::MissingEnvVar(n)) && n@ == "DISCORD_DEV_USER_ID"@),
            bot_token is Some && dev_user_id is Some ==> (r matches Ok(c) && Some(c.bot_token@)
                == opt_view(bot_token) && Some(c.dev_user_id@) == opt_view(dev_user_id)
                && c.song_info_server_url@ == (match song_info_server_url {
                Some(u) => u@,
                None => "http://localhost:3001"@,
            }) && c.data_dir@ == (match data_dir {
                Some(d) => d@,
                None => "data"@,
            }) && c.database_url@ == (match database_url {
                Some(u) => u@,
                None => "sqlite:"@ + c.data_dir@ + "/maistats-discord-bot.sqlite3"@,
            })),
    {
        let bot_token = match bot_token {
            Some(v) => v,
            None => {
                return Err(ConfigError::MissingEnvVar("DISCORD_BOT_TOKEN"));
            },
        };
        let dev_user_id = match dev_user_id {
            Some(v) => v,
            None => {
                return Err(ConfigError::MissingEnvVar("DISCORD_DEV_USER_ID"));
            },
        };
        let song_info_server_url = match song_info_server_url {
            Some(v) => v,
            None => String::from_str("http://localhost:3001"),
        };
        let data_dir = match data_dir {
            Some(v) => v,
            None => String::from_str("data"),
        };
        let database_url = match database_url {
            Some(v) => v,
            None => {
                let mut s = String::from_str("sqlite:");
                s.push_str(data_dir.as_str());
                s.push_str("/maistats-discord-bot.sqlite3");
                s
            },
        };
        Ok(DiscordConfig { bot_token, dev_user_id, song_info_server_url, database_url, data_dir })
    }
}

} // verus!

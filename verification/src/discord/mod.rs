//! The first Discord bot, which reads a single player's record collector.
pub mod rating;
pub mod today;

use vstd::prelude::*;

use crate::models::parser_models::ParsedPlayerProfile;
use crate::models::song_title::opt_view;
use crate::urls::{retry_delay_ms, retry_delay_spec};

verus! {

/// The settings of the bot.
#[derive(Debug, Clone)]
pub struct DiscordConfig {
    pub bot_token: String,
    pub user_id: String,
    pub backend_url: String,
}

/// A setting that the environment lacks: the name of its variable.
#[derive(Debug, Clone, Copy)]
pub enum ConfigError {
    MissingEnvVar(&'static str),
}

impl DiscordConfig {
    /// The settings from the values of `DISCORD_BOT_TOKEN`, `DISCORD_USER_ID` and `BACKEND_URL`,
    /// the first missing one reported.
    pub fn from_env_values(
        bot_token: Option<String>,
        user_id: Option<String>,
        backend_url: Option<String>,
    ) -> (r: Result<Self, ConfigError>)
        ensures
            bot_token is None ==> (r matches Err(ConfigError::MissingEnvVar(n)) && n@ == "DISCORD_BOT_TOKEN"@),
            bot_token is Some && user_id is None ==> (r matches Err(ConfigError::MissingEnvVar(n)) && n@ == "DISCORD_USER_ID"@),
            bot_token is Some && user_id is Some && backend_url is None ==> (r matches Err(ConfigError::MissingEnvVar(n)) && n@ == "BACKEND_URL"@),
            r matches Ok(c) ==> Some(c.bot_token@) == opt_view(bot_token) && Some(c.user_id@)
                == opt_view(user_id) && Some(c.backend_url@) == opt_view(backend_url),
            bot_token is Some && user_id is Some && backend_url is Some ==> r is Ok,
    {
        let bot_token = match bot_token {
            Some(v) => v,
            None => {
                return Err(ConfigError::MissingEnvVar("DISCORD_BOT_TOKEN"));
            },
        };
        let user_id = match user_id {
            Some(v) => v,
            None => {
                return Err(ConfigError::MissingEnvVar("DISCORD_USER_ID"));
            },
        };
        let backend_url = match backend_url {
            Some(v) => v,
            None => {
                return Err(ConfigError::MissingEnvVar("BACKEND_URL"));
            },
        };
        Ok(DiscordConfig { bot_token, user_id, backend_url })
    }
}

/// The error body of a record collector.
#[derive(Debug, Clone)]
pub struct RecordCollectorErrorResponse {
    pub message: String,
    pub code: String,
    pub maintenance: Option<bool>,
}

/// What asking the collector for the player gave.
#[derive(Debug, Clone)]
pub enum PlayerDataResult {
    Player(ParsedPlayerProfile),
    Maintenance,
    Unavailable(String),
}

/// What one request for the player gave: the player, a body that could not be read (with the
/// reason), an error body with the status (as text), another failed status, or no connection.
#[derive(Debug, Clone)]
pub enum PlayerFetchOutcome {
    Parsed(ParsedPlayerProfile),
    ParseFailed(String),
    ErrorBody(String, RecordCollectorErrorResponse),
    HttpStatus(String),
    ConnectionFailed(String),
}

/// What to do after a request: stop with a result, or try again after a wait.
#[derive(Debug, Clone)]
pub enum PlayerFetchStep {
    Done(PlayerDataResult),
    RetryAfterMs(u64),
}

/// The wait before try `attempt + 1` (counted from 0), or `None` after the third try.
pub open spec fn player_retry_delay(attempt: u32) -> Option<u64> {
    if attempt == 0 {
        Some(100u64)
    } else if attempt == 1 {
        Some(200u64)
    } else {
        None
    }
}

/// What to do after try `attempt` (0 to 2): a read player ends it; a collector in maintenance
/// ends it; any other failure is tried again, after 100 ms and then 200 ms, and after the
/// third try ends it as unavailable with the reason.
pub open spec fn player_fetch_step_spec(attempt: u32, outcome: PlayerFetchOutcome, step: PlayerFetchStep) -> bool {
    match outcome {
        PlayerFetchOutcome::Parsed(p) => step == PlayerFetchStep::Done(PlayerDataResult::Player(p)),
        PlayerFetchOutcome::ErrorBody(_, e) if e.maintenance == Some(true) => step
            == PlayerFetchStep::Done(PlayerDataResult::Maintenance),
        _ => match player_retry_delay(attempt) {
            Some(d) => step == PlayerFetchStep::RetryAfterMs(d),
            None => step matches PlayerFetchStep::Done(PlayerDataResult::Unavailable(m)) && m@
                == (match outcome {
                PlayerFetchOutcome::ParseFailed(e) => "Failed to parse response: "@ + e@,
                PlayerFetchOutcome::ErrorBody(status, e) => "HTTP "@ + status@ + ": "@ + e.message@,
                PlayerFetchOutcome::HttpStatus(status) => "HTTP "@ + status@,
                PlayerFetchOutcome::ConnectionFailed(e) => "Connection error: "@ + e@,
                _ => Seq::empty(),
            }),
        },
    }
}

/// What to do after a request for the player.
pub fn player_fetch_step(attempt: u32, outcome: PlayerFetchOutcome) -> (r: PlayerFetchStep)
    ensures
        player_fetch_step_spec(attempt, outcome, r),
{
    let ghost o = outcome;
    match outcome {
        PlayerFetchOutcome::Parsed(p) => PlayerFetchStep::Done(PlayerDataResult::Player(p)),
        PlayerFetchOutcome::ErrorBody(status, e) => {
            if e.maintenance == Some(true) {
                return PlayerFetchStep::Done(PlayerDataResult::Maintenance);
            }
            if attempt < 2 {
                return PlayerFetchStep::RetryAfterMs(if attempt == 0 {
                    100
                } else {
                    200
                });
            }
            let mut m = String::from_str("HTTP ");
            m.push_str(status.as_str());
            m.push_str(": ");
            m.push_str(e.message.as_str());
            PlayerFetchStep::Done(PlayerDataResult::Unavailable(m))
        },
        PlayerFetchOutcome::ParseFailed(err) => {
            if attempt < 2 {
                return PlayerFetchStep::RetryAfterMs(if attempt == 0 {
                    100
                } else {
                    200
                });
            }
            let mut m = String::from_str("Failed to parse response: ");
            m.push_str(err.as_str());
            PlayerFetchStep::Done(PlayerDataResult::Unavailable(m))
        },
        PlayerFetchOutcome::HttpStatus(status) => {
            if attempt < 2 {
                return PlayerFetchStep::RetryAfterMs(if attempt == 0 {
                    100
                } else {
                    200
                });
            }
            let mut m = String::from_str("HTTP ");
            m.push_str(status.as_str());
            PlayerFetchStep::Done(PlayerDataResult::Unavailable(m))
        },
        PlayerFetchOutcome::ConnectionFailed(err) => {
            if attempt < 2 {
                return PlayerFetchStep::RetryAfterMs(if attempt == 0 {
                    100
                } else {
                    200
                });
            }
            let mut m = String::from_str("Connection error: ");
            m.push_str(err.as_str());
            PlayerFetchStep::Done(PlayerDataResult::Unavailable(m))
        },
    }
}

/// How many times the readiness check is retried before giving up.
pub const READINESS_MAX_RETRIES: u32 = 5;

/// What one readiness check of the collector gave: ready, another status (as text), or no
/// connection (with the reason).
#[derive(Debug, Clone)]
pub enum ReadinessOutcome {
    Ready,
    NotReady(String),
    ConnectionFailed(String),
}

/// What to do after a readiness check: done, wait and check again, or give up with a message.
#[derive(Debug, Clone)]
pub enum ReadinessStep {
    Ready,
    RetryAfterMs(u64),
    GiveUp(String),
}

/// What to do after readiness check `attempt` (counted from 0): a ready collector ends it;
/// otherwise wait one second doubled at each try, five times, then give up.
pub open spec fn readiness_step_spec(attempt: u32, outcome: ReadinessOutcome, step: ReadinessStep) -> bool {
    match outcome {
        ReadinessOutcome::Ready => step is Ready,
        _ => if attempt < READINESS_MAX_RETRIES {
            step matches ReadinessStep::RetryAfterMs(d) && retry_delay_spec(attempt, 6, 1000) == Some(
                d as int,
            )
        } else {
            step matches ReadinessStep::GiveUp(m) && m@ == (match outcome {
                ReadinessOutcome::NotReady(status) => "Record collector failed to become ready after 5 retries (HTTP "@
                    + status@ + ")"@,
                ReadinessOutcome::ConnectionFailed(e) => "Record collector failed to become ready after 5 retries: "@
                    + e@,
                _ => Seq::empty(),
            })
        },
    }
}

/// What to do after a readiness check of the collector.
pub fn readiness_step(attempt: u32, outcome: ReadinessOutcome) -> (r: ReadinessStep)
    ensures
        readiness_step_spec(attempt, outcome, r),
{
    match outcome {
        ReadinessOutcome::Ready => ReadinessStep::Ready,
        ReadinessOutcome::NotReady(status) => {
            if attempt < READINESS_MAX_RETRIES {
                match retry_delay_ms(attempt, 6, 1000) {
                    Some(d) => ReadinessStep::RetryAfterMs(d),
                    None => ReadinessStep::RetryAfterMs(0),
                }
            } else {
                let mut m = String::from_str("Record collector failed to become ready after 5 retries (HTTP ");
                m.push_str(status.as_str());
                m.push_str(")");
                ReadinessStep::GiveUp(m)
            }
        },
        ReadinessOutcome::ConnectionFailed(e) => {
            if attempt < READINESS_MAX_RETRIES {
                match retry_delay_ms(attempt, 6, 1000) {
                    Some(d) => ReadinessStep::RetryAfterMs(d),
                    None => ReadinessStep::RetryAfterMs(0),
                }
            } else {
                let mut m = String::from_str("Record collector failed to become ready after 5 retries: ");
                m.push_str(e.as_str());
                ReadinessStep::GiveUp(m)
            }
        },
    }
}

} // verus!

use vstd::prelude::*;

verus! {

/// Settings of a SEGA ID client; the paths are kept as text.
#[derive(Debug, Clone)]
pub struct AppConfig {
    pub sega_id: String,
    pub sega_password: String,
    pub data_dir: String,
    pub cookie_path: String,
    pub discord_bot_token: Option<String>,
    pub discord_user_id: Option<String>,
}

} // verus!

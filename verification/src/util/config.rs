//! The bot's configuration file, as plain values.

use vstd::prelude::*;

verus! {

/// The whole configuration file: one `[bot]` table.
#[derive(Debug, Clone)]
pub struct Config {
    pub bot: BotConfig,
}

/// The `[bot]` table of the configuration file.
#[derive(Debug, Clone)]
pub struct BotConfig {
    /// The prefix that guilds without a prefix of their own use.
    pub default_prefix: String,
    pub invite_url: Option<String>,
    pub support_server_id: Option<u64>,
    pub token: String,
}

} // verus!

//! Per-broadcaster configuration and the fixed identifiers of the bot's
//! durable state slots.

use vstd::prelude::*;

verus! {

/// User id of the bot itself, so that it can ignore its own messages.
pub const BOT_USER_ID: &'static str = "1179987305";

/// Key-value namespace that stores the bot's own credentials.
pub const CREDENTIALS_KV: &'static str = "Credentials";

/// The access-token key inside `CREDENTIALS_KV`.
pub const CREDENTIALS_ACCESS_TOKEN: &'static str = "tw_access_token";

/// Key-value namespace that stores timeout records.
pub const TIMEOUTS_KV: &'static str = "Timeouts";

/// Key-value namespace that stores broadcaster-specific configuration.
pub const CONFIG_KV: &'static str = "BroadcasterConfiguration";

/// Name of the relational database that stores minigame attempts.
pub const FORTYFIVE_DATA: &'static str = "DB";

/// Configuration for the minigame, one per broadcaster.
pub struct FortyFiveConfig {
    /// The message emitted when a chatter hits the target exactly. A
    /// `{{ chatter_user_name }}` placeholder is replaced by the chatter's
    /// display name; when no custom message is set, a default one is used.
    pub perfect_45_message: Option<String>,
}

/// All per-broadcaster command configuration.
pub struct CommandConfig {
    pub forty_five: FortyFiveConfig,
}

impl Default for FortyFiveConfig {
    /// A broadcaster without stored configuration uses the default message.
    fn default() -> (r: Self)
        ensures
            r.perfect_45_message is None,
    {
        FortyFiveConfig { perfect_45_message: None }
    }
}

impl Default for CommandConfig {
    fn default() -> (r: Self)
        ensures
            r.forty_five.perfect_45_message is None,
    {
        CommandConfig { forty_five: FortyFiveConfig { perfect_45_message: None } }
    }
}

} // verus!

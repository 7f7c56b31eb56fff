//! Settings taken from the environment, with their defaults.
//!
//! Each function receives the value of its environment variable (`None` when
//! the variable is unset or not valid unicode) and decides the setting.
use vstd::prelude::*;
use serenity::all::GatewayIntents;
use crate::text::{chars_of, into_string};

verus! {

/// The "listening to" message shown under the bot user.
pub const MOTD: &'static str = "some good 'ol music";

/// The time it takes (in seconds) to disconnect when no music is being played.
pub const DISCONNECT_TIME: u64 = 300;

/// The value of a variable, or `default` when it is unset.
pub open spec fn or_default(var: Option<String>, default: Seq<char>) -> Seq<char> {
    match var {
        Some(v) => v@,
        None => default,
    }
}

/// The value of a variable when it is set to something non-empty.
pub open spec fn non_empty(var: Option<String>) -> Option<String> {
    match var {
        Some(v) => if v@.len() > 0 {
            Some(v)
        } else {
            None
        },
        None => None,
    }
}

fn value_or(var: Option<String>, default: &str) -> (s: String)
    ensures
        s@ == or_default(var, default@),
{
    match var {
        Some(v) => v,
        None => into_string(chars_of(default)),
    }
}

fn filter_empty(var: Option<String>) -> (r: Option<String>)
    ensures
        r == non_empty(var),
{
    match var {
        Some(v) => if v.unicode_len() > 0 {
            Some(v)
        } else {
            None
        },
        None => None,
    }
}

/// The bot token (`DISCORD_TOKEN`), which must be set.
pub fn discord_token(var: Option<String>) -> (s: String)
    requires
        var is Some,
    ensures
        s == var.unwrap(),
{
    match var {
        Some(v) => v,
        None => String::new(),
    }
}

/// The bits of `GatewayIntents::GUILDS`.
#[verifier::external_body]
fn guilds_intent_bits() -> (b: u64)
    ensures
        b == 1,
{
    GatewayIntents::GUILDS.bits()
}

/// The bits of `GatewayIntents::GUILD_VOICE_STATES`.
#[verifier::external_body]
fn guild_voice_states_intent_bits() -> (b: u64)
    ensures
        b == 128,
{
    GatewayIntents::GUILD_VOICE_STATES.bits()
}

/// The gateway intents the bot asks for (servers and voice states), as bits.
pub fn discord_intents() -> (bits: u64)
    ensures
        bits == 129,
{
    let guilds = guilds_intent_bits();
    let voice = guild_voice_states_intent_bits();
    assert(guilds | voice == 129) by (bit_vector)
        requires
            guilds == 1 && voice == 128,
    ;
    guilds | voice
}

/// The Spotify Connect device name the bot advertises (`DEVICE_NAME`),
/// "Spoticord" by default.
pub fn device_name(var: Option<String>) -> (s: String)
    ensures
        s@ == or_default(var, "Spoticord"@),
{
    value_or(var, "Spoticord")
}

/// Where the reusable Spotify credentials are cached (`CACHE_DIR`), "/data" by default.
pub fn cache_dir(var: Option<String>) -> (s: String)
    ensures
        s@ == or_default(var, "/data"@),
{
    value_or(var, "/data")
}

/// The client id of your own Spotify app (`SPOTIFY_CLIENT_ID`), if set and non-empty.
pub fn spotify_client_id(var: Option<String>) -> (r: Option<String>)
    ensures
        r == non_empty(var),
{
    filter_empty(var)
}

/// The client secret of your own Spotify app (`SPOTIFY_CLIENT_SECRET`), if set and non-empty.
pub fn spotify_client_secret(var: Option<String>) -> (r: Option<String>)
    ensures
        r == non_empty(var),
{
    filter_empty(var)
}

/// The redirect URI of the one-time Web API authorization
/// (`SPOTIFY_REDIRECT_URI`), `http://127.0.0.1:8898/callback` by default.
pub fn spotify_redirect_uri(var: Option<String>) -> (s: String)
    ensures
        s@ == or_default(var, "http://127.0.0.1:8898/callback"@),
{
    value_or(var, "http://127.0.0.1:8898/callback")
}

} // verus!

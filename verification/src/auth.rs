//! The settings of the one-time interactive Spotify login.
use vstd::prelude::*;
use crate::text::{decimal, push_str, push_decimal, into_string};

verus! {

/// The port of the local redirect server used during the one-time login.
pub const OAUTH_PORT: u16 = 8898;

/// The scopes requested during the interactive login.
pub fn oauth_scopes() -> (v: Vec<&'static str>)
    ensures
        v@.len() == 6,
        v@[0]@ == "streaming"@,
        v@[1]@ == "user-read-playback-state"@,
        v@[2]@ == "user-modify-playback-state"@,
        v@[3]@ == "user-read-currently-playing"@,
        v@[4]@ == "user-read-private"@,
        v@[5]@ == "user-read-email"@,
{
    vec![
        "streaming",
        "user-read-playback-state",
        "user-modify-playback-state",
        "user-read-currently-playing",
        "user-read-private",
        "user-read-email",
    ]
}

/// The redirect uri of the interactive login: `http://127.0.0.1:{OAUTH_PORT}/login`.
pub fn oauth_redirect_uri() -> (s: String)
    ensures
        s@ == "http://127.0.0.1:"@ + decimal(OAUTH_PORT as nat) + "/login"@,
{
    let mut out: Vec<char> = Vec::new();
    push_str(&mut out, "http://127.0.0.1:");
    push_decimal(&mut out, OAUTH_PORT as u64);
    push_str(&mut out, "/login");
    into_string(out)
}

} // verus!

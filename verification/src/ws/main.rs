//! The socket handshake: a client authenticates with its token, is marked
//! online, and its last synchronisation time is saved when it leaves.

use vstd::prelude::*;
use crate::error::prefixed;
use crate::ws::config::{WsIncoming, WsOutgoing};

verus! {

/// Seconds a client stays marked online.
pub const ONLINE_TTL_SECONDS: u64 = 60;

/// The key that marks a token as online.
pub fn online_key(token: &str) -> (k: String)
    ensures
        k@ == "online:"@ + token@,
{
    prefixed("online:", token)
}

/// The token a client offers in a message; only an `auth` message offers one.
pub fn offered_token(msg: Option<WsIncoming>) -> (t: Option<String>)
    ensures
        match msg {
            Some(WsIncoming::Auth { token }) => t == Some(token),
            _ => t is None,
        },
{
    match msg {
        Some(WsIncoming::Auth { token }) => Some(token),
        _ => None,
    }
}

/// The reply to an offered token, and whether the client is now
/// authenticated: it is whenever looking the token up did not fail.
pub fn handshake_reply(lookup_succeeded: bool) -> (r: (WsOutgoing, bool))
    ensures
        r.1 == lookup_succeeded,
        lookup_succeeded ==> r.0 == WsOutgoing::AuthSuccess,
        !lookup_succeeded ==> (r.0 matches WsOutgoing::Error { message } && message@ == "Invalid token"@),
{
    if lookup_succeeded {
        (WsOutgoing::AuthSuccess, true)
    } else {
        (WsOutgoing::Error { message: String::from_str("Invalid token") }, false)
    }
}

/// Whether saving the last synchronisation time reached an account.
pub fn last_sync_saved(rows_affected: u64) -> (r: bool)
    ensures
        r == (rows_affected > 0),
{
    rows_affected > 0
}

} // verus!

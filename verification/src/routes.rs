//! What each route's handler decides, given plain values from the
//! request: the transport around it only moves headers and responses.

use vstd::prelude::*;

use crate::common::ServerSession;

verus! {

/// What a handler answers: a success flag, a human-readable message and,
/// for a successful registration, the issued token.
pub struct ApiResponse {
    /// Whether the request was served.
    pub success: bool,
    /// A human-readable account of the outcome.
    pub message: String,
    /// The token issued by a successful registration; `None` elsewhere.
    pub token: Option<String>,
}

/// Handles a registration request for `server_id` at time `now`: a new
/// server gets a record and its token back; an id that is already
/// registered is refused and nothing changes.
pub fn register(session: &mut ServerSession, server_id: String, now: u64) -> (r: ApiResponse)
    ensures
        r.success == !old(session)@.contains_key(server_id@),
        old(session)@.contains_key(server_id@) ==> final(session)@ == old(session)@ && r.token
            is None && r.message@ == "Already registered!"@,
        !old(session)@.contains_key(server_id@) ==> (r.token matches Some(t) && final(session)@
            == old(session)@.insert(server_id@, (t@, now))) && r.message@ == "Registered"@,
{
    if session.contains_server(server_id.as_str()) {
        ApiResponse {
            success: false,
            message: String::from_str("Already registered!"),
            token: None,
        }
    } else {
        let token = session.register_server(server_id, now);
        ApiResponse { success: true, message: String::from_str("Registered"), token: Some(token) }
    }
}

/// Handles a logout request: removes the server's record if it has one,
/// and tells a server that was not registered that it is already out.
pub fn logout(session: &mut ServerSession, server_id: &str) -> (r: ApiResponse)
    ensures
        r.success == old(session)@.contains_key(server_id@),
        final(session)@ == old(session)@.remove(server_id@),
        r.token is None,
        r.success ==> r.message@ == "Logged out"@,
        !r.success ==> r.message@ == "Already logged out"@,
{
    if session.logout_server(server_id) {
        ApiResponse { success: true, message: String::from_str("Logged out"), token: None }
    } else {
        ApiResponse {
            success: false,
            message: String::from_str("Already logged out"),
            token: None,
        }
    }
}

/// Handles a heartbeat at time `now`: moves the server's last activity
/// forward, or tells a server that is not registered that it must
/// register first.
pub fn heartbeat(session: &mut ServerSession, server_id: &str, now: u64) -> (r: ApiResponse)
    ensures
        r.success == old(session)@.contains_key(server_id@),
        r.token is None,
        r.success ==> final(session)@ == old(session)@.insert(
            server_id@,
            (old(session)@[server_id@].0, now),
        ) && r.message@ == "Heartbeat recorded"@,
        !r.success ==> final(session)@ == old(session)@ && r.message@ == "Not registered"@,
{
    if session.touch_server(server_id, now) {
        ApiResponse { success: true, message: String::from_str("Heartbeat recorded"), token: None }
    } else {
        ApiResponse { success: false, message: String::from_str("Not registered"), token: None }
    }
}

/// The uniform refusal of every request the authorization decision turns
/// away, whichever check failed.
pub fn unauthorized_response() -> (r: ApiResponse)
    ensures
        !r.success,
        r.message@ == "Unauthorized."@,
        r.token is None,
{
    ApiResponse { success: false, message: String::from_str("Unauthorized."), token: None }
}

} // verus!

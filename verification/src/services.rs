//! The per-request authorization decision: shared-secret check, server
//! identity check and, outside the exempt routes, session-token check.

use vstd::prelude::*;

use crate::common::{spec_token_exists, ServerSession};

verus! {

/// A request's authentication material, as read from its headers. A
/// header that is missing, or whose value could not be decoded as text,
/// is `None`: a malformed header counts the same as an absent one.
pub struct AuthRequest {
    /// The route the request is addressed to.
    pub path: String,
    /// The `Authorization` header, expected to carry `Bearer ` and the
    /// shared secret.
    pub authorization: Option<String>,
    /// The `server` header: the caller's server id.
    pub server: Option<String>,
    /// The `token` header: the session credential from registration.
    pub token: Option<String>,
}

/// The authorization configuration, fixed at startup: the shared secret
/// every caller must present, and the routes that need no session token.
pub struct Auth {
    /// The shared secret expected after `Bearer ` in `Authorization`.
    pub secret: String,
    /// Routes reachable with the shared secret alone.
    pub no_token_routes: Vec<String>,
}

/// Holds when the `Authorization` header is present and carries exactly
/// `Bearer ` followed by the shared secret.
pub open spec fn spec_bearer_ok(auth: Auth, req: AuthRequest) -> bool {
    match req.authorization {
        Some(h) => h@ == "Bearer "@ + auth.secret@,
        None => false,
    }
}

/// Holds when the path is on the list of routes that need no token.
pub open spec fn spec_route_exempt(auth: Auth, path: Seq<char>) -> bool {
    exists|i: int|
        0 <= i < auth.no_token_routes@.len() && (#[trigger] auth.no_token_routes@[i])@ == path
}

/// Holds when the request presents a token that some live record carries.
pub open spec fn spec_token_ok(req: AuthRequest, m: Map<Seq<char>, (Seq<char>, u64)>) -> bool {
    match req.token {
        Some(t) => spec_token_exists(m, t@),
        None => false,
    }
}

/// The whole decision: the shared secret must match and a server id must
/// be present; outside the exempt routes the request must also present a
/// token held by some live record.
pub open spec fn spec_authorized(
    auth: Auth,
    req: AuthRequest,
    m: Map<Seq<char>, (Seq<char>, u64)>,
) -> bool {
    spec_bearer_ok(auth, req) && req.server is Some && (spec_route_exempt(auth, req.path@)
        || spec_token_ok(req, m))
}

/// The routes reachable without a session token: registration must be,
/// since no token exists before it.
pub fn default_no_token_routes() -> (r: Vec<String>)
    ensures
        r@.len() == 1,
        r@[0]@ == "/register"@,
{
    let mut v: Vec<String> = Vec::new();
    v.push(String::from_str("/register"));
    v
}

impl Auth {
    /// Builds the configuration the decision runs under.
    pub fn new(secret: String, no_token_routes: Vec<String>) -> (r: Auth)
        ensures
            r.secret == secret,
            r.no_token_routes == no_token_routes,
    {
        Auth { secret, no_token_routes }
    }

    /// Reports whether this path needs no session token.
    #[verifier::loop_isolation(false)]
    fn route_exempt(&self, path: &String) -> (r: bool)
        ensures
            r == spec_route_exempt(*self, path@),
    {
        let mut i: usize = 0;
        while i < self.no_token_routes.len()
            invariant
                i <= self.no_token_routes@.len(),
                forall|k: int| 0 <= k < i ==> (#[trigger] self.no_token_routes@[k])@ != path@,
            decreases self.no_token_routes@.len() - i,
        {
            if self.no_token_routes[i] == *path {
                proof {
                    assert(spec_route_exempt(*self, path@));
                }
                return true;
            }
            i += 1;
        }
        false
    }

    /// Decides whether a request may proceed to its handler. Exactly the
    /// requests that `spec_authorized` allows are let through; every
    /// failing check folds into the same refusal.
    pub fn authorize(&self, req: &AuthRequest, session: &ServerSession) -> (r: bool)
        ensures
            r == spec_authorized(*self, *req, session@),
    {
        let secret_ok = match &req.authorization {
            Some(h) => {
                let mut expected = String::from_str("Bearer ");
                expected.append(self.secret.as_str());
                *h == expected
            },
            None => false,
        };
        let server_ok = req.server.is_some();
        let exempt = self.route_exempt(&req.path);
        let token_ok = match &req.token {
            Some(t) => session.lookup_by_token(t.as_str()).is_some(),
            None => false,
        };
        secret_ok && server_ok && (exempt || token_ok)
    }

    /// Pairs this configuration with the service the middleware wraps.
    pub fn new_transform<S>(self, service: S) -> (m: AuthMiddleware<S>)
        ensures
            m.auth == self,
            m.service == service,
    {
        AuthMiddleware { service, auth: self }
    }
}

/// The middleware state: the wrapped service and the configuration its
/// decisions run under.
pub struct AuthMiddleware<S> {
    /// The service that handles a request once it is authorized.
    pub service: S,
    /// The configuration of the authorization decision.
    pub auth: Auth,
}

impl<S> AuthMiddleware<S> {
    /// The decision made for each inbound request before the wrapped
    /// service sees it.
    pub fn check_request(&self, req: &AuthRequest, session: &ServerSession) -> (r: bool)
        ensures
            r == spec_authorized(self.auth, *req, session@),
    {
        self.auth.authorize(req, session)
    }
}

} // verus!

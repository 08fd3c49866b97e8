//! Properties of the registry and of the authorization decision, stated
//! and proved over the same views and spec functions the contracts use.

use vstd::prelude::*;

use crate::common::{spec_expired, spec_sweep, spec_token_exists};
use crate::services::{
    spec_authorized, spec_bearer_ok, spec_route_exempt, Auth, AuthRequest,
};

verus! {

/// Registering a free id puts it in the registry, so a second
/// registration for the same id, with no logout or eviction in between,
/// finds the id taken and is refused; the token issued first stays held
/// by a live record.
pub proof fn lemma_register_twice(
    m: Map<Seq<char>, (Seq<char>, u64)>,
    id: Seq<char>,
    token: Seq<char>,
    now: u64,
)
    requires
        !m.contains_key(id),
    ensures
        ({
            let m1 = m.insert(id, (token, now));
            m1.contains_key(id) && spec_token_exists(m1, token)
        }),
{
    let m1 = m.insert(id, (token, now));
    assert(m1.contains_key(id) && m1[id].0 == token);
}

/// After a successful registration, exactly one logout removes the
/// record: the first finds the id present, every later one finds it
/// absent and leaves the registry as it is.
pub proof fn lemma_logout_once(
    m: Map<Seq<char>, (Seq<char>, u64)>,
    id: Seq<char>,
    token: Seq<char>,
    now: u64,
)
    ensures
        ({
            let m1 = m.insert(id, (token, now));
            let m2 = m1.remove(id);
            m1.contains_key(id) && !m2.contains_key(id) && m2.remove(id) == m2
        }),
{
    let m1 = m.insert(id, (token, now));
    let m2 = m1.remove(id);
    assert(m2.remove(id) =~= m2);
}

/// A token no live record holds is not found; right after a registration
/// that issued it, it is found, on a record whose last activity is the
/// registration time.
pub proof fn lemma_lookup_by_token(
    m: Map<Seq<char>, (Seq<char>, u64)>,
    id: Seq<char>,
    token: Seq<char>,
    now: u64,
)
    requires
        forall|sid: Seq<char>| m.contains_key(sid) ==> (#[trigger] m[sid]).0 != token,
    ensures
        !spec_token_exists(m, token),
        spec_token_exists(m.insert(id, (token, now)), token),
        m.insert(id, (token, now))[id] == (token, now),
{
    let m1 = m.insert(id, (token, now));
    assert(m1.contains_key(id) && m1[id].0 == token);
}

/// The idle threshold: a record idle beyond the threshold at sweep time
/// is gone after the sweep; one within the threshold survives it,
/// unchanged.
pub proof fn lemma_sweep_threshold(
    m: Map<Seq<char>, (Seq<char>, u64)>,
    id: Seq<char>,
    now: u64,
    max_inactivity: u64,
)
    requires
        m.contains_key(id),
    ensures
        spec_expired(m[id].1, now, max_inactivity) ==> !spec_sweep(
            m,
            now,
            max_inactivity,
        ).contains_key(id),
        !spec_expired(m[id].1, now, max_inactivity) ==> spec_sweep(
            m,
            now,
            max_inactivity,
        ).contains_key(id) && spec_sweep(m, now, max_inactivity)[id] == m[id],
{
}

/// The three sides of the decision: without the shared secret nothing
/// passes, whatever token is presented; on an exempt route the secret and
/// a server id suffice, token or no token; off the exempt routes a
/// request without a token, or with a token no live record holds, is
/// turned away.
pub proof fn lemma_authorization(
    auth: Auth,
    req: AuthRequest,
    m: Map<Seq<char>, (Seq<char>, u64)>,
)
    ensures
        !spec_bearer_ok(auth, req) ==> !spec_authorized(auth, req, m),
        spec_bearer_ok(auth, req) && req.server is Some && spec_route_exempt(auth, req.path@)
            ==> spec_authorized(auth, req, m),
        !spec_route_exempt(auth, req.path@) && req.token is None ==> !spec_authorized(auth, req, m),
        !spec_route_exempt(auth, req.path@) && (req.token matches Some(t) && !spec_token_exists(
            m,
            t@,
        )) ==> !spec_authorized(auth, req, m),
{
}

} // verus!

//! The session registry: server records, registration, logout, heartbeat
//! touches, token lookup and the eviction sweep.

use vstd::prelude::*;

use crate::active_map::{
    map_contains, map_contents, map_get, map_insert, map_new, map_remove, map_snapshot,
    ActiveServerMap,
};

verus! {

/// How often the eviction sweep runs, in seconds.
pub const SWEEP_INTERVAL_SECS: u64 = 60 * 5;

/// How long a session may stay idle before a sweep evicts it, in seconds.
pub const MAX_INACTIVITY_SECS: u64 = 60 * 10;

/// Information of an active server: the credential issued at registration
/// and the time of its last authenticated interaction, in whole seconds.
pub struct ActiveServerInfo {
    /// Time of the last activity of this server, in seconds.
    pub last_activity: u64,

    /// Token issued at registration; immutable for the life of the session.
    pub token: String,
}

/// The server state during its session: a map from server id to its
/// active record. The map itself is a concurrency-safe container; the
/// contracts below describe each operation's effect on its contents.
pub struct ServerSession {
    /// Active servers during the service's lifetime, keyed by server id,
    /// each holding `(token, last_activity)`.
    pub active_servers: ActiveServerMap,
}

impl View for ServerSession {
    type V = Map<Seq<char>, (Seq<char>, u64)>;

    open spec fn view(&self) -> Map<Seq<char>, (Seq<char>, u64)> {
        map_contents(self.active_servers)
    }
}

/// Holds when some live record carries exactly this token.
pub open spec fn spec_token_exists(m: Map<Seq<char>, (Seq<char>, u64)>, token: Seq<char>) -> bool {
    exists|id: Seq<char>| m.contains_key(id) && m[id].0 == token
}

/// Holds when a record last active at `last_activity` counts as idle for
/// longer than `max_inactivity` at time `now`.
pub open spec fn spec_expired(last_activity: u64, now: u64, max_inactivity: u64) -> bool {
    now > last_activity + max_inactivity
}

/// The registry contents after one sweep at time `now`: exactly the
/// records that were not idle beyond `max_inactivity`, unchanged.
pub open spec fn spec_sweep(
    m: Map<Seq<char>, (Seq<char>, u64)>,
    now: u64,
    max_inactivity: u64,
) -> Map<Seq<char>, (Seq<char>, u64)> {
    Map::new(
        |id: Seq<char>| m.contains_key(id) && !spec_expired(m[id].1, now, max_inactivity),
        |id: Seq<char>| m[id],
    )
}

/// Relies on `uuid::Uuid::new_v4` and its hyphenated text form: a fresh
/// random token of 36 characters. Nothing else is promised of its value.
#[verifier::external_body]
fn fresh_token() -> (r: String)
    ensures
        r@.len() == 36,
{
    uuid::Uuid::new_v4().to_string()
}

impl ServerSession {
    /// Builds a registry with no active servers.
    pub fn new() -> (r: ServerSession)
        ensures
            (r@ == Map::<Seq<char>, (Seq<char>, u64)>::empty()),
    {
        ServerSession { active_servers: map_new() }
    }

    /// Registers an active server: stores a record carrying a freshly
    /// generated token and the given time, and returns that token.
    ///
    /// An existing record for the same id is overwritten; callers that
    /// must refuse a second registration check for the id first.
    pub fn register_server(&mut self, id: String, now: u64) -> (token: String)
        ensures
            final(self)@ == old(self)@.insert(id@, (token@, now)),
            token@.len() == 36,
    {
        let token = fresh_token();
        let stored = token.clone();
        map_insert(&mut self.active_servers, id, stored, now);
        token
    }

    /// Logs out the active server: removes its record, and reports
    /// whether a record was there to remove.
    pub fn logout_server(&mut self, id: &str) -> (r: bool)
        ensures
            r == old(self)@.contains_key(id@),
            final(self)@ == old(self)@.remove(id@),
    {
        map_remove(&mut self.active_servers, id).is_some()
    }

    /// Reports whether a server is currently registered.
    pub fn contains_server(&self, id: &str) -> (r: bool)
        ensures
            r == self@.contains_key(id@),
    {
        map_contains(&self.active_servers, id)
    }

    /// Returns a copy of the record held for a server, if any.
    pub fn get_server(&self, id: &str) -> (r: Option<ActiveServerInfo>)
        ensures
            r is Some == self@.contains_key(id@),
            (r matches Some(info) ==> self@[id@] == (info.token@, info.last_activity)),
    {
        match map_get(&self.active_servers, id) {
            Some(v) => Some(ActiveServerInfo { last_activity: v.1, token: v.0 }),
            None => None,
        }
    }

    /// Moves a server's last activity forward to `now`, keeping its token.
    /// Reports whether the server was registered; an unknown id changes
    /// nothing.
    pub fn touch_server(&mut self, id: &str, now: u64) -> (r: bool)
        ensures
            r == old(self)@.contains_key(id@),
            r ==> final(self)@ == old(self)@.insert(id@, (old(self)@[id@].0, now)),
            !r ==> final(self)@ == old(self)@,
    {
        match map_get(&self.active_servers, id) {
            Some(v) => {
                map_insert(&mut self.active_servers, id.to_owned(), v.0, now);
                true
            },
            None => false,
        }
    }

    /// Finds the record that carries exactly this token, if any: the
    /// check used during authorization. An entry is returned if and only
    /// if some live record holds the token.
    #[verifier::loop_isolation(false)]
    pub fn lookup_by_token(&self, token: &str) -> (r: Option<ActiveServerInfo>)
        ensures
            (r is Some) == spec_token_exists(self@, token@),
            (r matches Some(info) ==> info.token@ == token@ && exists|id: Seq<char>|
                self@.contains_key(id) && self@[id] == (token@, info.last_activity)),
    {
        let wanted: String = token.to_owned();
        let snap = map_snapshot(&self.active_servers);
        let mut i: usize = 0;
        while i < snap.len()
            invariant
                i <= snap@.len(),
                forall|k: int| 0 <= k < i ==> (#[trigger] snap@[k]).1@ != token@,
            decreases snap@.len() - i,
        {
            if snap[i].1 == wanted {
                let info = ActiveServerInfo { last_activity: snap[i].2, token: snap[i].1.clone() };
                proof {
                    assert(self@.contains_key(snap@[i as int].0@));
                    assert(spec_token_exists(self@, token@));
                }
                return Some(info);
            }
            i += 1;
        }
        proof {
            assert forall|id: Seq<char>| self@.contains_key(id) implies self@[id].0 != token@ by {
                let k = choose|k: int| 0 <= k < snap@.len() && (#[trigger] snap@[k]).0@ == id;
                assert(self@[id] == (snap@[k].1@, snap@[k].2));
            }
        }
        None
    }

    /// Lists every live server with the time of its last activity, for
    /// the eviction sweep: each listed pair is a live record, every live
    /// server appears, and no server appears twice.
    #[verifier::loop_isolation(false)]
    pub fn snapshot_for_sweep(&self) -> (r: Vec<(String, u64)>)
        ensures
            forall|i: int|
                0 <= i < r@.len() ==> self@.contains_key((#[trigger] r@[i]).0@) && self@[r@[i].0@].1
                    == r@[i].1,
            forall|id: Seq<char>|
                self@.contains_key(id) ==> exists|i: int|
                    0 <= i < r@.len() && (#[trigger] r@[i]).0@ == id,
            forall|i: int, j: int|
                0 <= i < r@.len() && 0 <= j < r@.len() && i != j ==> (#[trigger] r@[i]).0@ != (
                #[trigger] r@[j]).0@,
    {
        let snap = map_snapshot(&self.active_servers);
        let mut out: Vec<(String, u64)> = Vec::new();
        let mut i: usize = 0;
        while i < snap.len()
            invariant
                i <= snap@.len(),
                out@.len() == i,
                forall|k: int|
                    0 <= k < i ==> (#[trigger] out@[k]).0@ == snap@[k].0@ && out@[k].1
                        == snap@[k].2,
            decreases snap@.len() - i,
        {
            out.push((snap[i].0.clone(), snap[i].2));
            i += 1;
        }
        proof {
            assert forall|id: Seq<char>| self@.contains_key(id) implies exists|k: int|
                0 <= k < out@.len() && (#[trigger] out@[k]).0@ == id by {
                let k = choose|k: int| 0 <= k < snap@.len() && (#[trigger] snap@[k]).0@ == id;
                assert((out@[k]).0@ == id);
            }
        }
        out
    }

    /// One eviction cycle at time `now`: removes every record idle for
    /// longer than `max_inactivity` and keeps the rest untouched. Returns
    /// each evicted server with how long it had been idle.
    #[verifier::loop_isolation(false)]
    pub fn sweep_inactive(&mut self, now: u64, max_inactivity: u64) -> (evicted: Vec<
        (String, u64),
    >)
        ensures
            final(self)@ == spec_sweep(old(self)@, now, max_inactivity),
            forall|i: int|
                0 <= i < evicted@.len() ==> old(self)@.contains_key((#[trigger] evicted@[i]).0@)
                    && spec_expired(old(self)@[evicted@[i].0@].1, now, max_inactivity)
                    && evicted@[i].1 == now - old(self)@[evicted@[i].0@].1,
            forall|id: Seq<char>|
                old(self)@.contains_key(id) && spec_expired(old(self)@[id].1, now, max_inactivity)
                    ==> exists|i: int| 0 <= i < evicted@.len() && (#[trigger] evicted@[i]).0@ == id,
    {
        let snap = map_snapshot(&self.active_servers);
        let ghost m0 = self@;
        let mut evicted: Vec<(String, u64)> = Vec::new();
        let mut i: usize = 0;
        while i < snap.len()
            invariant
                i <= snap@.len(),
                forall|id: Seq<char>|
                    #[trigger] self@.contains_key(id) ==> m0.contains_key(id) && self@[id]
                        == m0[id],
                forall|id: Seq<char>|
                    #[trigger] m0.contains_key(id) ==> (self@.contains_key(id) <==> !(exists|k: int|
                        0 <= k < i && (#[trigger] snap@[k]).0@ == id && spec_expired(
                            snap@[k].2,
                            now,
                            max_inactivity,
                        ))),
                forall|j: int|
                    0 <= j < evicted@.len() ==> m0.contains_key((#[trigger] evicted@[j]).0@)
                        && spec_expired(m0[evicted@[j].0@].1, now, max_inactivity)
                        && evicted@[j].1 == now - m0[evicted@[j].0@].1,
                forall|k: int|
                    0 <= k < i && spec_expired((#[trigger] snap@[k]).2, now, max_inactivity)
                        ==> exists|j: int|
                        0 <= j < evicted@.len() && (#[trigger] evicted@[j]).0@ == snap@[k].0@,
            decreases snap@.len() - i,
        {
            let last = snap[i].2;
            proof {
                assert(m0.contains_key((snap@[i as int]).0@));
                assert(m0[(snap@[i as int]).0@] == ((snap@[i as int]).1@, (snap@[i as int]).2));
            }
            if now > last && now - last > max_inactivity {
                map_remove(&mut self.active_servers, snap[i].0.as_str());
                let ghost evicted_before = evicted@;
                evicted.push((snap[i].0.clone(), now - last));
                proof {
                    assert((evicted@[evicted@.len() - 1]).0@ == (snap@[i as int]).0@);
                    assert forall|k: int|
                        0 <= k < i + 1 && spec_expired(
                            (#[trigger] snap@[k]).2,
                            now,
                            max_inactivity,
                        ) implies exists|j: int|
                        0 <= j < evicted@.len() && (#[trigger] evicted@[j]).0@ == snap@[k].0@ by {
                        if k < i {
                            let j = choose|j: int|
                                0 <= j < evicted_before.len() && (#[trigger] evicted_before[j]).0@
                                    == snap@[k].0@;
                            assert(evicted@[j].0@ == snap@[k].0@);
                        } else {
                            assert((evicted@[evicted@.len() - 1]).0@ == snap@[k].0@);
                        }
                    }
                }
            }
            i += 1;
        }
        proof {
            assert forall|id: Seq<char>|
                m0.contains_key(id) && spec_expired(m0[id].1, now, max_inactivity) implies exists|
                j: int,
            | 0 <= j < evicted@.len() && (#[trigger] evicted@[j]).0@ == id by {
                let k = choose|k: int| 0 <= k < snap@.len() && (#[trigger] snap@[k]).0@ == id;
                assert(m0[id] == (snap@[k].1@, snap@[k].2));
                assert(spec_expired(snap@[k].2, now, max_inactivity));
            }
            assert(self@ =~= spec_sweep(m0, now, max_inactivity)) by {
                assert forall|id: Seq<char>|
                    spec_sweep(m0, now, max_inactivity).contains_key(
                        id,
                    ) implies self@.contains_key(id) by {
                    assert(m0.contains_key(id) && !spec_expired(m0[id].1, now, max_inactivity));
                    assert forall|k: int|
                        0 <= k < snap@.len() && (#[trigger] snap@[k]).0@
                            == id implies !spec_expired(snap@[k].2, now, max_inactivity) by {
                        assert(m0[id] == (snap@[k].1@, snap@[k].2));
                    }
                }
            }
        }
        evicted
    }
}

} // verus!

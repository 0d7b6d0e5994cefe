//! The relay's session table: one live session per node id, looked up
//! by session id or node id.

use vstd::prelude::*;
use crate::protocol::NodeType;
use crate::frames::MessageFormat;

verus! {

/// An authenticated node's open link.
#[derive(Debug, Clone)]
pub struct Session {
    pub id: String,
    pub node_id: String,
    pub node_type: NodeType,
    pub connection_id: u128,
    pub created_at: u64,
    pub last_activity: u64,
    pub message_format: MessageFormat,
}

/// Counts over the live sessions.
#[derive(Debug, Clone, Copy)]
pub struct SessionStats {
    pub active_sessions: usize,
    pub total_clients: usize,
    pub total_agents: usize,
}

/// The table of live sessions.
pub struct SessionManager {
    sessions: Vec<Session>,
}

/// No two live sessions share a session id or a node id.
pub open spec fn sessions_unique(ss: Seq<Session>) -> bool {
    forall|i: int, j: int|
        0 <= i < j < ss.len() ==> (#[trigger] ss[i]).id@ != (#[trigger] ss[j]).id@ && ss[i].node_id@
            != ss[j].node_id@
}

/// Whether a session's activity clock has lagged `now` by more than
/// the timeout.
pub open spec fn session_expired(s: Session, timeout: u64, now: u64) -> bool {
    s.last_activity + timeout < now
}

/// The sessions that survive an expiry sweep, in table order.
pub open spec fn surviving_sessions(ss: Seq<Session>, timeout: u64, now: u64) -> Seq<Session>
    decreases ss.len(),
{
    if ss.len() == 0 {
        Seq::empty()
    } else {
        surviving_sessions(ss.drop_last(), timeout, now) + (if session_expired(
            ss.last(),
            timeout,
            now,
        ) {
            Seq::empty()
        } else {
            seq![ss.last()]
        })
    }
}

/// The node ids of the sessions of one role, in table order.
pub open spec fn nodes_of(ss: Seq<Session>, t: NodeType) -> Seq<Seq<char>>
    decreases ss.len(),
{
    if ss.len() == 0 {
        Seq::empty()
    } else {
        nodes_of(ss.drop_last(), t) + (if ss.last().node_type == t {
            seq![ss.last().node_id@]
        } else {
            Seq::empty()
        })
    }
}

/// How many sessions have the given role.
pub open spec fn count_of(ss: Seq<Session>, t: NodeType) -> nat
    decreases ss.len(),
{
    if ss.len() == 0 {
        0
    } else {
        count_of(ss.drop_last(), t) + (if ss.last().node_type == t {
            1nat
        } else {
            0nat
        })
    }
}

fn str_equal(a: &str, b: &str) -> (r: bool)
    ensures
        r == (a@ == b@),
{
    let na = a.unicode_len();
    let nb = b.unicode_len();
    if na != nb {
        return false;
    }
    let mut k: usize = 0;
    while k < na
        invariant
            k <= na,
            na == a@.len() == b@.len(),
            a@.take(k as int) == b@.take(k as int),
        decreases na - k,
    {
        if a.get_char(k) != b.get_char(k) {
            proof {
                assert(a@.take(na as int)[k as int] == a@[k as int]);
                assert(b@.take(na as int)[k as int] == b@[k as int]);
                assert(a@.take(na as int) =~= a@);
                assert(b@.take(na as int) =~= b@);
            }
            return false;
        }
        proof {
            assert(a@.take(k + 1 as int) =~= a@.take(k as int).push(a@[k as int]));
            assert(b@.take(k + 1 as int) =~= b@.take(k as int).push(b@[k as int]));
        }
        k = k + 1;
    }
    proof {
        assert(a@.take(na as int) =~= a@);
        assert(b@.take(na as int) =~= b@);
    }
    true
}

impl SessionManager {
    /// The sessions held, in insertion order.
    pub closed spec fn view(&self) -> Seq<Session> {
        self.sessions@
    }

    /// The table keeps one live session per node id and per session id.
    pub open spec fn wf(&self) -> bool {
        sessions_unique(self@)
    }

    /// An empty table.
    pub fn new() -> (r: SessionManager)
        ensures
            r@ == Seq::<Session>::empty(),
            r.wf(),
    {
        SessionManager { sessions: Vec::new() }
    }

    fn find_by_node(&self, node_id: &str) -> (r: Option<usize>)
        ensures
            match r {
                Some(k) => k < self@.len() && self@[k as int].node_id@ == node_id@,
                None => forall|j: int| 0 <= j < self@.len() ==> (#[trigger] self@[j]).node_id@
                    != node_id@,
            },
    {
        let mut k: usize = 0;
        while k < self.sessions.len()
            invariant
                k <= self@.len(),
                forall|j: int| 0 <= j < k ==> (#[trigger] self@[j]).node_id@ != node_id@,
            decreases self@.len() - k,
        {
            if str_equal(self.sessions[k].node_id.as_str(), node_id) {
                return Some(k);
            }
            k = k + 1;
        }
        None
    }

    fn find_by_id(&self, session_id: &str) -> (r: Option<usize>)
        ensures
            match r {
                Some(k) => k < self@.len() && self@[k as int].id@ == session_id@,
                None => forall|j: int| 0 <= j < self@.len() ==> (#[trigger] self@[j]).id@
                    != session_id@,
            },
    {
        let mut k: usize = 0;
        while k < self.sessions.len()
            invariant
                k <= self@.len(),
                forall|j: int| 0 <= j < k ==> (#[trigger] self@[j]).id@ != session_id@,
            decreases self@.len() - k,
        {
            if str_equal(self.sessions[k].id.as_str(), session_id) {
                return Some(k);
            }
            k = k + 1;
        }
        None
    }

    /// Insert a session.  A prior session with the same node id is
    /// removed first, so a reconnecting node replaces its old link and
    /// node ids stay unique across live sessions.
    pub fn add_session(&mut self, session: Session) -> (replaced: Option<Session>)
        requires
            old(self).wf(),
            forall|j: int| 0 <= j < old(self)@.len() ==> (#[trigger] old(self)@[j]).id@
                != session.id@,
        ensures
            final(self).wf(),
            final(self)@.len() == old(self)@.len() + (if replaced is Some {
                0int
            } else {
                1int
            }),
            final(self)@.len() >= 1 && final(self)@.last() == session,
            match replaced {
                Some(s) => s.node_id@ == session.node_id@ && (exists|j: int|
                    0 <= j < old(self)@.len() && old(self)@[j] == s),
                None => forall|j: int| 0 <= j < old(self)@.len() ==> (#[trigger] old(self)@[j]).node_id@ != session.node_id@,
            },
            forall|j: int| 0 <= j < final(self)@.len() - 1 ==> (#[trigger] final(self)@[j]).node_id@ != session.node_id@,
    {
        let ghost orig = self@;
        let prior = self.find_by_node(session.node_id.as_str());
        let replaced = match prior {
            Some(k) => {
                let s = self.sessions.remove(k);
                proof {
                    assert forall|j: int| 0 <= j < self@.len() implies (#[trigger] self@[j]).id@
                        != session.id@ && self@[j].node_id@ != session.node_id@ by {
                        let j0 = if j < k { j } else { j + 1 };
                        assert(self@[j] == orig[j0]);
                    }
                    assert forall|a: int, b: int| 0 <= a < b < self@.len() implies (
                    #[trigger] self@[a]).id@ != (#[trigger] self@[b]).id@ && self@[a].node_id@
                        != self@[b].node_id@ by {
                        let a0 = if a < (k as int) { a } else { a + 1 };
                        let b0 = if b < (k as int) { b } else { b + 1 };
                        assert(self@[a] == orig[a0] && self@[b] == orig[b0]);
                    }
                }
                Some(s)
            },
            None => None,
        };
        self.sessions.push(session);
        proof {
            assert(final(self)@.last() == session);
            assert forall|j: int|
                0 <= j < final(self)@.len() - 1 implies (#[trigger] final(self)@[j]).node_id@
                != session.node_id@ by {
                assert(final(self)@[j].node_id@ != final(self)@[final(self)@.len() - 1].node_id@);
            }
        }
        replaced
    }

    /// Remove a session by its session id; idempotent, returning the
    /// removed session when there was one.
    pub fn remove_session(&mut self, session_id: &str) -> (r: Option<Session>)
        requires
            old(self).wf(),
        ensures
            final(self).wf(),
            match r {
                Some(s) => s.id@ == session_id@ && (exists|j: int|
                    0 <= j < old(self)@.len() && old(self)@[j] == s) && final(self)@.len() + 1
                    == old(self)@.len(),
                None => final(self)@ == old(self)@ && (forall|j: int|
                    0 <= j < old(self)@.len() ==> (#[trigger] old(self)@[j]).id@ != session_id@),
            },
            forall|j: int| 0 <= j < final(self)@.len() ==> (#[trigger] final(self)@[j]).id@
                != session_id@,
    {
        match self.find_by_id(session_id) {
            Some(k) => {
                let s = self.sessions.remove(k);
                proof {
                    assert forall|j: int|
                        0 <= j < final(self)@.len() implies (#[trigger] final(self)@[j]).id@
                        != session_id@ by {
                        if j < k {
                            assert(final(self)@[j] == old(self)@[j]);
                        } else {
                            assert(final(self)@[j] == old(self)@[j + 1]);
                        }
                    }
                }
                Some(s)
            },
            None => None,
        }
    }

    /// Look a session up by session id.
    pub fn get_session(&self, session_id: &str) -> (r: Option<&Session>)
        ensures
            match r {
                Some(s) => s.id@ == session_id@ && (exists|j: int|
                    0 <= j < self@.len() && self@[j] == *s),
                None => forall|j: int| 0 <= j < self@.len() ==> (#[trigger] self@[j]).id@
                    != session_id@,
            },
    {
        match self.find_by_id(session_id) {
            Some(k) => Some(&self.sessions[k]),
            None => None,
        }
    }

    /// Look a session up by node id.
    pub fn get_session_by_node(&self, node_id: &str) -> (r: Option<&Session>)
        ensures
            match r {
                Some(s) => s.node_id@ == node_id@ && (exists|j: int|
                    0 <= j < self@.len() && self@[j] == *s),
                None => forall|j: int| 0 <= j < self@.len() ==> (#[trigger] self@[j]).node_id@
                    != node_id@,
            },
    {
        match self.find_by_node(node_id) {
            Some(k) => Some(&self.sessions[k]),
            None => None,
        }
    }

    /// Whether a node currently has a live session.
    pub fn is_node_connected(&self, node_id: &str) -> (r: bool)
        ensures
            r == exists|j: int| 0 <= j < self@.len() && (#[trigger] self@[j]).node_id@ == node_id@,
    {
        match self.find_by_node(node_id) {
            Some(k) => {
                proof {
                    assert(self@[k as int].node_id@ == node_id@);
                }
                true
            },
            None => false,
        }
    }

    /// The node ids of all live sessions of the given role, exactly
    /// and in table order.
    pub fn get_active_nodes(&self, node_type: NodeType) -> (r: Vec<String>)
        ensures
            crate::protocol::strings_view(r) == nodes_of(self@, node_type),
    {
        let mut out: Vec<String> = Vec::new();
        let mut k: usize = 0;
        while k < self.sessions.len()
            invariant
                k <= self@.len(),
                crate::protocol::strings_view(out) == nodes_of(self@.take(k as int), node_type),
            decreases self@.len() - k,
        {
            let ghost pre = crate::protocol::strings_view(out);
            if self.sessions[k].node_type == node_type {
                let copy = crate::strutil::clone_string(&self.sessions[k].node_id);
                out.push(copy);
                proof {
                    assert(crate::protocol::strings_view(out) =~= pre + seq![
                        self@[k as int].node_id@,
                    ]);
                }
            }
            proof {
                assert(self@.take(k + 1 as int).drop_last() =~= self@.take(k as int));
                assert(self@.take(k + 1 as int).last() == self@[k as int]);
            }
            k = k + 1;
        }
        proof {
            assert(self@.take(self@.len() as int) =~= self@);
        }
        out
    }

    /// Touch a session's activity clock: the matched session's clock
    /// becomes the larger of its old value and `now`, and nothing else
    /// of any session changes.
    pub fn update_session_activity(&mut self, session_id: &str, now: u64) -> (r: bool)
        requires
            old(self).wf(),
        ensures
            final(self).wf(),
            final(self)@.len() == old(self)@.len(),
            r == exists|j: int| 0 <= j < old(self)@.len() && (#[trigger] old(self)@[j]).id@
                == session_id@,
            forall|j: int| 0 <= j < final(self)@.len() ==> (#[trigger] final(self)@[j]).id@ == old(self)@[j].id@ && final(self)@[j].node_id@ == old(self)@[j].node_id@ && final(self)@[j].node_type == old(self)@[j].node_type && final(self)@[j].connection_id == old(self)@[j].connection_id && final(self)@[j].created_at == old(self)@[j].created_at && final(self)@[j].message_format == old(self)@[j].message_format && final(self)@[j].last_activity == (if old(self)@[j].id@ == session_id@ && old(self)@[j].last_activity < now { now } else { old(self)@[j].last_activity }),
    {
        match self.find_by_id(session_id) {
            Some(k) => {
                let ghost kk = k as int;
                let mut s = self.sessions.remove(k);
                if now > s.last_activity {
                    s.last_activity = now;
                }
                self.sessions.insert(k, s);
                proof {
                    assert(old(self)@[kk].id@ == session_id@);
                    assert forall|j: int|
                        0 <= j < final(self)@.len() && j != kk implies (#[trigger] old(self)@[j]).id@ != session_id@ by {
                        if j < kk {
                            assert(sessions_unique(old(self)@));
                            assert(old(self)@[j].id@ != old(self)@[kk].id@);
                        } else {
                            assert(old(self)@[kk].id@ != old(self)@[j].id@);
                        }
                    }
                    assert forall|j: int|
                        0 <= j < final(self)@.len() && j != kk implies #[trigger] final(self)@[j] == old(self)@[j] by {
                    }
                }
                true
            },
            None => false,
        }
    }

    /// Drop exactly the sessions whose activity clock lags `now` by
    /// more than the timeout, keeping the rest in order; returns how
    /// many were dropped.
    pub fn cleanup_expired_sessions(&mut self, timeout: u64, now: u64) -> (removed: usize)
        requires
            old(self).wf(),
        ensures
            final(self).wf(),
            final(self)@ == surviving_sessions(old(self)@, timeout, now),
            final(self)@.len() + removed == old(self)@.len(),
    {
        let ghost orig = self@;
        let orig_len = self.sessions.len();
        let mut removed: usize = 0;
        let mut k: usize = 0;
        let ghost mut m: int = 0;
        while k < self.sessions.len()
            invariant
                k <= self@.len(),
                0 <= m <= orig.len(),
                sessions_unique(self@),
                self@.len() + removed == orig_len == orig.len(),
                self@ =~= surviving_sessions(orig.take(m), timeout, now) + orig.skip(m),
                k == surviving_sessions(orig.take(m), timeout, now).len(),
            decreases self@.len() - k,
        {
            proof {
                assert(self@[k as int] == orig.skip(m)[0]);
                assert(orig.skip(m)[0] == orig[m]);
                assert(orig.take(m + 1).drop_last() =~= orig.take(m));
                assert(orig.take(m + 1).last() == orig[m]);
            }
            let s = &self.sessions[k];
            let expired = now >= s.last_activity && now - s.last_activity > timeout;
            if expired {
                let ghost before = self@;
                self.sessions.remove(k);
                removed = removed + 1;
                proof {
                    assert(session_expired(orig[m], timeout, now));
                    assert(self@ =~= surviving_sessions(orig.take(m + 1), timeout, now) + orig.skip(
                        m + 1,
                    ));
                    assert forall|a: int, b: int| 0 <= a < b < self@.len() implies (
                    #[trigger] self@[a]).id@ != (#[trigger] self@[b]).id@ && self@[a].node_id@
                        != self@[b].node_id@ by {
                        let a0 = if a < k { a } else { a + 1 };
                        let b0 = if b < k { b } else { b + 1 };
                        assert(self@[a] == before[a0] && self@[b] == before[b0]);
                    }
                }
            } else {
                proof {
                    assert(!session_expired(orig[m], timeout, now));
                    assert(self@ =~= surviving_sessions(orig.take(m + 1), timeout, now) + orig.skip(
                        m + 1,
                    ));
                }
                k = k + 1;
            }
            proof {
                m = m + 1;
            }
        }
        proof {
            assert(orig.take(orig.len() as int) =~= orig);
            assert(self@ =~= surviving_sessions(orig, timeout, now));
        }
        removed
    }

    /// Session counts by role: the total and the exact number of
    /// client and agent sessions.
    pub fn get_stats(&self) -> (r: SessionStats)
        ensures
            r.active_sessions == self@.len(),
            r.total_clients == count_of(self@, NodeType::Client),
            r.total_agents == count_of(self@, NodeType::Agent),
    {
        let mut clients: usize = 0;
        let mut agents: usize = 0;
        let mut k: usize = 0;
        while k < self.sessions.len()
            invariant
                k <= self@.len(),
                clients == count_of(self@.take(k as int), NodeType::Client),
                agents == count_of(self@.take(k as int), NodeType::Agent),
                clients <= k,
                agents <= k,
            decreases self@.len() - k,
        {
            proof {
                assert(self@.take(k + 1 as int).drop_last() =~= self@.take(k as int));
                assert(self@.take(k + 1 as int).last() == self@[k as int]);
            }
            match self.sessions[k].node_type {
                NodeType::Client => clients = clients + 1,
                NodeType::Agent => agents = agents + 1,
                NodeType::Relay => {},
            }
            k = k + 1;
        }
        proof {
            assert(self@.take(self@.len() as int) =~= self@);
        }
        SessionStats { active_sessions: self.sessions.len(), total_clients: clients, total_agents: agents }
    }
}


} // verus!

//! The relay's authenticator: validates a node's declared identity and
//! key material, applies the allow-list and naming policy, and keeps
//! the table of active session tokens.

use vstd::prelude::*;
use crate::protocol::NodeType;
use crate::validation::{
    valid_node_id, validate_node_id, valid_capabilities, validate_capabilities,
    validate_public_key,
};
use crate::access::in_list;
use crate::paths::str_has_prefix;
use crate::protocol::strings_view;

verus! {

/// A node that authenticated successfully.
#[derive(Debug, Clone)]
pub struct AuthenticatedNode {
    pub node_id: String,
    pub node_type: NodeType,
    pub session_token: String,
    pub public_key: Vec<u8>,
    pub capabilities: Vec<String>,
    pub authenticated_at: u64,
}

/// Why authentication was refused.
#[derive(Debug, Clone, Copy, PartialEq, Eq, Structural)]
pub enum AuthFailure {
    InvalidNodeId,
    InvalidNodeType,
    InvalidPublicKey,
    InvalidCapabilities,
    NotAllowed,
}

/// Why a token failed validation.
#[derive(Debug, Clone, Copy, PartialEq, Eq, Structural)]
pub enum TokenFailure {
    Expired,
    Invalid,
}

/// Counts over the active token table.
#[derive(Debug, Clone, Copy)]
pub struct AuthStats {
    pub total_authenticated: usize,
    pub authenticated_clients: usize,
    pub authenticated_agents: usize,
}

/// The policy decision: the allow-list (when non-empty) must name the
/// node, and the id must carry its role's prefix.
pub open spec fn auth_policy_ok(
    node_id: Seq<char>,
    node_type: NodeType,
    allowed: Seq<Seq<char>>,
) -> bool {
    &&& (allowed.len() > 0 ==> in_list(node_id, allowed))
    &&& match node_type {
        NodeType::Client => "client-"@.is_prefix_of(node_id) || allowed.len() == 0,
        NodeType::Agent => "agent-"@.is_prefix_of(node_id) || allowed.len() == 0,
        NodeType::Relay => false,
    }
}

/// Whether an authentication request is accepted at all.
pub open spec fn auth_accepts(
    node_id: Seq<char>,
    node_type: NodeType,
    key_len: int,
    caps: Seq<Seq<char>>,
    enable_auth: bool,
    allowed: Seq<Seq<char>>,
) -> bool {
    &&& valid_node_id(node_id)
    &&& node_type != NodeType::Relay
    &&& key_len == 32
    &&& valid_capabilities(caps)
    &&& (enable_auth ==> auth_policy_ok(node_id, node_type, allowed))
}

/// Whether a token entry has outlived the session timeout at `now`.
pub open spec fn token_expired(n: AuthenticatedNode, timeout: u64, now: u64) -> bool {
    n.authenticated_at + timeout < now
}

/// The token entries that survive an expiry sweep, in table order.
pub open spec fn surviving_tokens(
    ns: Seq<AuthenticatedNode>,
    timeout: u64,
    now: u64,
) -> Seq<AuthenticatedNode>
    decreases ns.len(),
{
    if ns.len() == 0 {
        Seq::empty()
    } else {
        surviving_tokens(ns.drop_last(), timeout, now) + (if token_expired(
            ns.last(),
            timeout,
            now,
        ) {
            Seq::empty()
        } else {
            seq![ns.last()]
        })
    }
}

/// The token entries whose token differs from `t`, in table order.
pub open spec fn without_token(ns: Seq<AuthenticatedNode>, t: Seq<char>) -> Seq<AuthenticatedNode>
    decreases ns.len(),
{
    if ns.len() == 0 {
        Seq::empty()
    } else {
        without_token(ns.drop_last(), t) + (if ns.last().session_token@ == t {
            Seq::empty()
        } else {
            seq![ns.last()]
        })
    }
}

/// How many token entries belong to nodes of the given role.
pub open spec fn auth_count_of(ns: Seq<AuthenticatedNode>, t: NodeType) -> nat
    decreases ns.len(),
{
    if ns.len() == 0 {
        0
    } else {
        auth_count_of(ns.drop_last(), t) + (if ns.last().node_type == t {
            1nat
        } else {
            0nat
        })
    }
}

/// The authentication manager.
pub struct AuthManager {
    pub session_timeout: u64,
    pub enable_auth: bool,
    pub allowed_clients: Vec<String>,
    pub tokens: Vec<AuthenticatedNode>,
}

fn str_equal(a: &str, b: &str) -> (r: bool)
    ensures
        r == (a@ == b@),
{
    let na = a.unicode_len();
    let nb = b.unicode_len();
    if na != nb {
        return false;
    }
    if !str_has_prefix(a, b) {
        proof {
            assert(a@.take(nb as int) =~= a@);
        }
        return false;
    }
    proof {
        assert(a@.take(nb as int) =~= a@);
    }
    true
}

/// Relies on uuid::Uuid::new_v4 and its hyphenated rendering: a random
/// token whose text is 36 characters; nothing more is promised of a
/// random value.
#[verifier::external_body]
fn fresh_token_prefix() -> (r: String)
    ensures
        r@.len() == 36,
{
    uuid::Uuid::new_v4().to_string()
}



impl AuthManager {
    /// The nodes currently holding tokens.
    pub closed spec fn view(&self) -> Seq<AuthenticatedNode> {
        self.tokens@
    }

    /// A manager with an empty token table.
    pub fn new(session_timeout: u64, enable_auth: bool, allowed_clients: Vec<String>) -> (r:
        AuthManager)
        ensures
            r@ == Seq::<AuthenticatedNode>::empty(),
            r.session_timeout == session_timeout,
            r.enable_auth == enable_auth,
            r.allowed_clients == allowed_clients,
    {
        AuthManager { session_timeout, enable_auth, allowed_clients, tokens: Vec::new() }
    }

    /// Authenticate a node.  Succeeds exactly when the id, type, key
    /// and capabilities are valid and the policy admits the node; the
    /// minted token is the random prefix joined to the node id.
    pub fn authenticate_node(
        &mut self,
        node_id: &str,
        node_type: NodeType,
        public_key: &Vec<u8>,
        capabilities: &Vec<String>,
        now: u64,
    ) -> (r: Result<String, AuthFailure>)
        ensures
            final(self).session_timeout == old(self).session_timeout,
            final(self).enable_auth == old(self).enable_auth,
            final(self).allowed_clients == old(self).allowed_clients,
            r is Ok <==> auth_accepts(
                node_id@,
                node_type,
                public_key@.len() as int,
                strings_view(*capabilities),
                old(self).enable_auth,
                strings_view(old(self).allowed_clients),
            ),
            r is Ok ==> final(self)@.len() == old(self)@.len() + 1 && final(self)@.drop_last()
                == old(self)@ && final(self)@.last().node_id@ == node_id@
                && final(self)@.last().node_type == node_type && final(self)@.last().public_key@
                == public_key@ && strings_view(final(self)@.last().capabilities) == strings_view(
                *capabilities,
            ) && final(self)@.last().authenticated_at == now
                && final(self)@.last().session_token@ == r.unwrap()@,
            r is Ok ==> exists|p: Seq<char>|
                p.len() == 36 && r.unwrap()@ == p + "_"@ + node_id@,
            r is Err ==> final(self)@ == old(self)@,
    {
        if !validate_node_id(node_id) {
            return Err(AuthFailure::InvalidNodeId);
        }
        if matches!(node_type, NodeType::Relay) {
            return Err(AuthFailure::InvalidNodeType);
        }
        if !validate_public_key(public_key) {
            return Err(AuthFailure::InvalidPublicKey);
        }
        if !validate_capabilities(capabilities) {
            return Err(AuthFailure::InvalidCapabilities);
        }
        if self.enable_auth {
            if self.allowed_clients.len() > 0 && !self.node_in_allow_list(node_id) {
                return Err(AuthFailure::NotAllowed);
            }
            let prefix_ok = match node_type {
                NodeType::Client => str_has_prefix(node_id, "client-"),
                NodeType::Agent => str_has_prefix(node_id, "agent-"),
                NodeType::Relay => false,
            };
            if !(prefix_ok || self.allowed_clients.len() == 0) {
                return Err(AuthFailure::NotAllowed);
            }
        }
        let mut token = fresh_token_prefix();
        let ghost p = token@;
        crate::strutil::append_str(&mut token, "_");
        crate::strutil::append_str(&mut token, node_id);
        proof {
            assert(token@ == p + "_"@ + node_id@);
        }
        let entry = AuthenticatedNode {
            node_id: crate::strutil::str_to_string(node_id),
            node_type,
            session_token: crate::strutil::clone_string(&token),
            public_key: clone_bytes(public_key),
            capabilities: clone_strings(capabilities),
            authenticated_at: now,
        };
        self.tokens.push(entry);
        proof {
            assert(final(self)@.drop_last() =~= old(self)@);
        }
        Ok(token)
    }

    fn node_in_allow_list(&self, node_id: &str) -> (r: bool)
        ensures
            r == in_list(node_id@, strings_view(self.allowed_clients)),
    {
        let ghost lv = strings_view(self.allowed_clients);
        let mut k: usize = 0;
        while k < self.allowed_clients.len()
            invariant
                k <= self.allowed_clients@.len(),
                lv == strings_view(self.allowed_clients),
                lv.len() == self.allowed_clients@.len(),
                forall|j: int| 0 <= j < k ==> #[trigger] lv[j] != node_id@,
            decreases self.allowed_clients@.len() - k,
        {
            if str_equal(self.allowed_clients[k].as_str(), node_id) {
                proof {
                    assert(lv[k as int] == node_id@);
                }
                return true;
            }
            k = k + 1;
        }
        false
    }

    fn find_token(&self, token: &str) -> (r: Option<usize>)
        ensures
            match r {
                Some(k) => k < self@.len() && self@[k as int].session_token@ == token@,
                None => forall|j: int| 0 <= j < self@.len() ==> (#[trigger] self@[
                    j
                ]).session_token@ != token@,
            },
    {
        let mut k: usize = 0;
        while k < self.tokens.len()
            invariant
                k <= self@.len(),
                forall|j: int| 0 <= j < k ==> (#[trigger] self@[j]).session_token@ != token@,
            decreases self@.len() - k,
        {
            if str_equal(self.tokens[k].session_token.as_str(), token) {
                return Some(k);
            }
            k = k + 1;
        }
        None
    }

    /// Validate a session token: known and not expired.  A token is
    /// valid while `now - authenticated_at` does not exceed the
    /// session timeout; the two failures are reported distinctly.
    pub fn validate_token(&self, token: &str, now: u64) -> (r: Result<&AuthenticatedNode, TokenFailure>)
        ensures
            match r {
                Ok(n) => (exists|j: int| 0 <= j < self@.len() && self@[j] == *n)
                    && n.session_token@ == token@ && (now <= n.authenticated_at || now
                    - n.authenticated_at <= self.session_timeout),
                Err(TokenFailure::Invalid) => forall|j: int| 0 <= j < self@.len() ==> (
                #[trigger] self@[j]).session_token@ != token@,
                Err(TokenFailure::Expired) => exists|j: int|
                    0 <= j < self@.len() && (#[trigger] self@[j]).session_token@ == token@ && now
                        - self@[j].authenticated_at > self.session_timeout,
            },
    {
        match self.find_token(token) {
            None => Err(TokenFailure::Invalid),
            Some(k) => {
                let n = &self.tokens[k];
                if now >= n.authenticated_at && now - n.authenticated_at > self.session_timeout {
                    proof {
                        assert(self@[k as int].session_token@ == token@);
                    }
                    Err(TokenFailure::Expired)
                } else {
                    Ok(n)
                }
            },
        }
    }

    /// Revoke a token: afterwards no entry carries it, the other
    /// entries stay in order, and the result says whether any entry
    /// carried it.
    pub fn revoke_token(&mut self, token: &str) -> (r: bool)
        ensures
            final(self).session_timeout == old(self).session_timeout,
            final(self).enable_auth == old(self).enable_auth,
            final(self).allowed_clients == old(self).allowed_clients,
            final(self)@ == without_token(old(self)@, token@),
            r == exists|j: int|
                0 <= j < old(self)@.len() && (#[trigger] old(self)@[j]).session_token@ == token@,
            forall|j: int| 0 <= j < final(self)@.len() ==> (#[trigger] final(self)@[
                j
            ]).session_token@ != token@,
    {
        let ghost orig = self@;
        let mut removed_any = false;
        let mut k: usize = 0;
        let ghost mut m: int = 0;
        while k < self.tokens.len()
            invariant
                k <= self@.len(),
                0 <= m <= orig.len(),
                self.session_timeout == old(self).session_timeout,
                self.enable_auth == old(self).enable_auth,
                self.allowed_clients == old(self).allowed_clients,
                self@ =~= without_token(orig.take(m), token@) + orig.skip(m),
                k == without_token(orig.take(m), token@).len(),
                removed_any == exists|j: int|
                    0 <= j < m && (#[trigger] orig[j]).session_token@ == token@,
                forall|j: int| 0 <= j < k ==> (#[trigger] self@[j]).session_token@ != token@,
            decreases self@.len() - k,
        {
            proof {
                assert(self@[k as int] == orig.skip(m)[0]);
                assert(orig.skip(m)[0] == orig[m]);
                assert(orig.take(m + 1).drop_last() =~= orig.take(m));
                assert(orig.take(m + 1).last() == orig[m]);
            }
            if str_equal(self.tokens[k].session_token.as_str(), token) {
                self.tokens.remove(k);
                removed_any = true;
                proof {
                    assert(self@ =~= without_token(orig.take(m + 1), token@) + orig.skip(m + 1));
                }
            } else {
                proof {
                    assert(self@ =~= without_token(orig.take(m + 1), token@) + orig.skip(m + 1));
                }
                k = k + 1;
            }
            proof {
                m = m + 1;
            }
        }
        proof {
            assert(orig.take(orig.len() as int) =~= orig);
            assert(self@ =~= without_token(orig, token@));
        }
        removed_any
    }

    /// Drop exactly the tokens that have outlived the session timeout,
    /// keeping the rest in order; returns how many were dropped.
    pub fn cleanup_expired_tokens(&mut self, now: u64) -> (removed: usize)
        ensures
            final(self).session_timeout == old(self).session_timeout,
            final(self).enable_auth == old(self).enable_auth,
            final(self).allowed_clients == old(self).allowed_clients,
            final(self)@ == surviving_tokens(old(self)@, old(self).session_timeout, now),
            final(self)@.len() + removed == old(self)@.len(),
    {
        let ghost orig = self@;
        let orig_len = self.tokens.len();
        let mut removed: usize = 0;
        let mut k: usize = 0;
        let ghost mut m: int = 0;
        while k < self.tokens.len()
            invariant
                k <= self@.len(),
                0 <= m <= orig.len(),
                self@.len() + removed == orig_len == orig.len(),
                self.session_timeout == old(self).session_timeout,
                self.enable_auth == old(self).enable_auth,
                self.allowed_clients == old(self).allowed_clients,
                self@ =~= surviving_tokens(orig.take(m), self.session_timeout, now) + orig.skip(m),
                k == surviving_tokens(orig.take(m), self.session_timeout, now).len(),
            decreases self@.len() - k,
        {
            proof {
                assert(self@[k as int] == orig.skip(m)[0]);
                assert(orig.skip(m)[0] == orig[m]);
                assert(orig.take(m + 1).drop_last() =~= orig.take(m));
                assert(orig.take(m + 1).last() == orig[m]);
            }
            let n = &self.tokens[k];
            if now >= n.authenticated_at && now - n.authenticated_at > self.session_timeout {
                self.tokens.remove(k);
                removed = removed + 1;
                proof {
                    assert(token_expired(orig[m], self.session_timeout, now));
                    assert(self@ =~= surviving_tokens(orig.take(m + 1), self.session_timeout, now)
                        + orig.skip(m + 1));
                }
            } else {
                proof {
                    assert(!token_expired(orig[m], self.session_timeout, now));
                    assert(self@ =~= surviving_tokens(orig.take(m + 1), self.session_timeout, now)
                        + orig.skip(m + 1));
                }
                k = k + 1;
            }
            proof {
                m = m + 1;
            }
        }
        proof {
            assert(orig.take(orig.len() as int) =~= orig);
            assert(self@ =~= surviving_tokens(orig, self.session_timeout, now));
        }
        removed
    }

    /// Counts over the active tokens: the total and the exact number
    /// held by clients and by agents.
    pub fn get_auth_stats(&self) -> (r: AuthStats)
        ensures
            r.total_authenticated == self@.len(),
            r.authenticated_clients == auth_count_of(self@, NodeType::Client),
            r.authenticated_agents == auth_count_of(self@, NodeType::Agent),
    {
        let mut clients: usize = 0;
        let mut agents: usize = 0;
        let mut k: usize = 0;
        while k < self.tokens.len()
            invariant
                k <= self@.len(),
                clients == auth_count_of(self@.take(k as int), NodeType::Client),
                agents == auth_count_of(self@.take(k as int), NodeType::Agent),
                clients <= k,
                agents <= k,
            decreases self@.len() - k,
        {
            proof {
                assert(self@.take(k + 1 as int).drop_last() =~= self@.take(k as int));
                assert(self@.take(k + 1 as int).last() == self@[k as int]);
            }
            match self.tokens[k].node_type {
                NodeType::Client => clients = clients + 1,
                NodeType::Agent => agents = agents + 1,
                NodeType::Relay => {},
            }
            k = k + 1;
        }
        proof {
            assert(self@.take(self@.len() as int) =~= self@);
        }
        AuthStats {
            total_authenticated: self.tokens.len(),
            authenticated_clients: clients,
            authenticated_agents: agents,
        }
    }
}


/// Relies on Vec::clone: the copy holds the same bytes.
#[verifier::external_body]
fn clone_bytes(v: &Vec<u8>) -> (r: Vec<u8>)
    ensures
        r@ == v@,
{
    v.clone()
}

/// Relies on Vec::clone and String::clone: the copy holds the same
/// strings.
#[verifier::external_body]
fn clone_strings(v: &Vec<String>) -> (r: Vec<String>)
    ensures
        strings_view(r) == strings_view(*v),
{
    v.clone()
}

} // verus!

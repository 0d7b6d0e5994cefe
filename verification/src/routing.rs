//! The relay router: choose the peer for an inbound message and frame
//! it in the peer's negotiated encoding.  Responses find their
//! originator through the request-tracking table.

use vstd::prelude::*;
use crate::protocol::{Message, NodeType, spec_request_id, spec_is_response};
use crate::session::SessionManager;
use crate::frames::{Frame, encode_frame, frame_carries};

verus! {

/// Counters over routing decisions.
#[derive(Debug, Clone, Copy)]
pub struct RoutingStats {
    pub messages_routed: u64,
    pub failed_routes: u64,
}

/// One tracked request, for routing its response back.
#[derive(Debug, Clone)]
pub struct RequestTrackingEntry {
    pub request_id: u128,
    pub originator_node_id: String,
    pub target_node_id: String,
    pub created_at: u64,
}

/// Why a message could not be routed.
#[derive(Debug, Clone, Copy, PartialEq, Eq, Structural)]
pub enum RouteError {
    NotRoutable,
    NoAgentsAvailable,
    UnknownOriginator,
    TargetNotConnected,
}

/// The originator recorded by the first tracking entry for a request
/// id, in table order.
pub open spec fn first_tracked(tv: Seq<RequestTrackingEntry>, id: u128) -> Option<Seq<char>>
    decreases tv.len(),
{
    if tv.len() == 0 {
        None
    } else if tv[0].request_id == id {
        Some(tv[0].originator_node_id@)
    } else {
        first_tracked(tv.skip(1), id)
    }
}

/// The target an `EstablishChannel` message names, and nothing for any
/// other message.
pub open spec fn spec_channel_target(m: crate::protocol::MessageV) -> Option<Seq<char>> {
    match m {
        crate::protocol::MessageV::EstablishChannel { target_node, .. } => Some(target_node),
        _ => None,
    }
}

/// Whom an inbound message is for: a channel request goes to the node
/// it names; a response goes to the first tracked originator of its
/// request id; a client's request goes to the agent the round-robin
/// counter picks; everything else is not routable, and each failure
/// names its reason.
pub open spec fn spec_route_target(
    m: crate::protocol::MessageV,
    sender: NodeType,
    tv: Seq<RequestTrackingEntry>,
    agents: Seq<Seq<char>>,
    rr: u64,
) -> Result<Seq<char>, RouteError> {
    if spec_channel_target(m) is Some {
        Ok(spec_channel_target(m).unwrap())
    } else if spec_is_response(m) {
        match spec_request_id(m) {
            None => Err(RouteError::NotRoutable),
            Some(id) => match first_tracked(tv, id) {
                Some(o) => Ok(o),
                None => Err(RouteError::UnknownOriginator),
            },
        }
    } else if spec_request_id(m) is Some {
        match sender {
            NodeType::Client => {
                if agents.len() == 0 {
                    Err(RouteError::NoAgentsAvailable)
                } else {
                    Ok(agents[(rr as int) % (agents.len() as int)])
                }
            },
            _ => Err(RouteError::NotRoutable),
        }
    } else {
        Err(RouteError::NotRoutable)
    }
}

/// One tracking entry's age test at `now`.
pub open spec fn request_aged(e: RequestTrackingEntry, max_age: u64, now: u64) -> bool {
    e.created_at + max_age < now
}

/// The tracking entries that survive an age sweep, in table order.
pub open spec fn surviving_requests(
    tv: Seq<RequestTrackingEntry>,
    max_age: u64,
    now: u64,
) -> Seq<RequestTrackingEntry>
    decreases tv.len(),
{
    if tv.len() == 0 {
        Seq::empty()
    } else {
        surviving_requests(tv.drop_last(), max_age, now) + (if request_aged(
            tv.last(),
            max_age,
            now,
        ) {
            Seq::empty()
        } else {
            seq![tv.last()]
        })
    }
}

/// The message router with its request-tracking table.
pub struct MessageRouter {
    pub stats: RoutingStats,
    pub tracking: Vec<RequestTrackingEntry>,
    pub rr_counter: u64,
}

impl MessageRouter {
    /// The tracked requests.
    pub closed spec fn tracking_view(&self) -> Seq<RequestTrackingEntry> {
        self.tracking@
    }

    /// A router with zeroed counters and an empty tracking table.
    pub fn new() -> (r: MessageRouter)
        ensures
            r.stats.messages_routed == 0,
            r.stats.failed_routes == 0,
            r.tracking_view() == Seq::<RequestTrackingEntry>::empty(),
    {
        MessageRouter {
            stats: RoutingStats { messages_routed: 0, failed_routes: 0 },
            tracking: Vec::new(),
            rr_counter: 0,
        }
    }

    /// Reset the counters.
    pub fn reset_stats(&mut self)
        ensures
            final(self).stats.messages_routed == 0,
            final(self).stats.failed_routes == 0,
            final(self).tracking_view() == old(self).tracking_view(),
    {
        self.stats = RoutingStats { messages_routed: 0, failed_routes: 0 };
    }

    /// The counters as they stand.
    pub fn get_stats(&self) -> (r: RoutingStats)
        ensures
            r == self.stats,
    {
        self.stats
    }

    /// Remember who issued a request and whom it was sent to.
    pub fn track_request(
        &mut self,
        request_id: u128,
        originator_node_id: String,
        target_node_id: String,
        now: u64,
    )
        ensures
            final(self).tracking_view().len() == old(self).tracking_view().len() + 1,
            final(self).tracking_view().last().request_id == request_id,
            final(self).tracking_view().last().originator_node_id@ == originator_node_id@,
            final(self).stats == old(self).stats,
    {
        self.tracking.push(
            RequestTrackingEntry { request_id, originator_node_id, target_node_id, created_at: now },
        );
    }

    /// The node that issued a request: the originator of the first
    /// tracking entry for the id, or nothing when none is tracked.
    pub fn get_request_originator(&self, request_id: u128) -> (r: Option<String>)
        ensures
            match r {
                Some(n) => first_tracked(self.tracking_view(), request_id) == Some(n@),
                None => first_tracked(self.tracking_view(), request_id) is None,
            },
    {
        let ghost tv = self.tracking_view();
        proof {
            assert(tv.skip(0) =~= tv);
        }
        let mut k: usize = 0;
        while k < self.tracking.len()
            invariant
                k <= tv.len(),
                tv == self.tracking_view(),
                first_tracked(tv, request_id) == first_tracked(tv.skip(k as int), request_id),
            decreases tv.len() - k,
        {
            proof {
                assert(tv.skip(k as int)[0] == tv[k as int]);
            }
            if self.tracking[k].request_id == request_id {
                let ghost kk = k as int;
                let n = crate::strutil::clone_string(&self.tracking[k].originator_node_id);
                proof {
                    assert(first_tracked(tv.skip(kk), request_id) == Some(
                        tv[kk].originator_node_id@,
                    ));
                }
                return Some(n);
            }
            proof {
                assert(tv.skip(k as int).skip(1) =~= tv.skip(k + 1 as int));
            }
            k = k + 1;
        }
        proof {
            assert(tv.skip(tv.len() as int).len() == 0);
        }
        None
    }

    /// Age exactly the tracking entries older than the TTL out of the
    /// table, keeping the rest in order; returns how many were
    /// dropped.
    pub fn cleanup_old_requests(&mut self, max_age: u64, now: u64) -> (removed: usize)
        ensures
            final(self).tracking_view() == surviving_requests(
                old(self).tracking_view(),
                max_age,
                now,
            ),
            final(self).tracking_view().len() + removed == old(self).tracking_view().len(),
            final(self).stats == old(self).stats,
            final(self).rr_counter == old(self).rr_counter,
    {
        let ghost orig = self.tracking_view();
        let mut removed: usize = 0;
        let mut k: usize = 0;
        let ghost mut m: int = 0;
        let orig_len = self.tracking.len();
        while k < self.tracking.len()
            invariant
                k <= self.tracking_view().len(),
                0 <= m <= orig.len(),
                self.tracking_view().len() + removed == orig_len == orig.len(),
                self.stats == old(self).stats,
                self.rr_counter == old(self).rr_counter,
                self.tracking_view() =~= surviving_requests(orig.take(m), max_age, now)
                    + orig.skip(m),
                k == surviving_requests(orig.take(m), max_age, now).len(),
            decreases self.tracking_view().len() - k,
        {
            proof {
                assert(self.tracking_view()[k as int] == orig.skip(m)[0]);
                assert(orig.skip(m)[0] == orig[m]);
                assert(orig.take(m + 1).drop_last() =~= orig.take(m));
                assert(orig.take(m + 1).last() == orig[m]);
            }
            let e = &self.tracking[k];
            if now >= e.created_at && now - e.created_at > max_age {
                self.tracking.remove(k);
                removed = removed + 1;
                proof {
                    assert(request_aged(orig[m], max_age, now));
                    assert(self.tracking_view() =~= surviving_requests(
                        orig.take(m + 1),
                        max_age,
                        now,
                    ) + orig.skip(m + 1));
                }
            } else {
                proof {
                    assert(!request_aged(orig[m], max_age, now));
                    assert(self.tracking_view() =~= surviving_requests(
                        orig.take(m + 1),
                        max_age,
                        now,
                    ) + orig.skip(m + 1));
                }
                k = k + 1;
            }
            proof {
                m = m + 1;
            }
        }
        proof {
            assert(orig.take(orig.len() as int) =~= orig);
            assert(self.tracking_view() =~= surviving_requests(orig, max_age, now));
        }
        removed
    }

    /// Route an inbound message: pick the peer `spec_route_target`
    /// names, frame the message in that peer's negotiated encoding,
    /// and count the decision.  Success is owed whenever the named
    /// peer has a live session; each failure carries the reason the
    /// target spec gives, or `TargetNotConnected` when the named peer
    /// has no session.
    pub fn route_message(
        &mut self,
        m: &Message,
        sender_node_type: NodeType,
        sessions: &SessionManager,
    ) -> (r: Result<(String, Frame), RouteError>)
        requires
            old(self).stats.messages_routed < u64::MAX,
            old(self).stats.failed_routes < u64::MAX,
        ensures
            match r {
                Ok((target, frame)) => spec_route_target(
                    m@,
                    sender_node_type,
                    old(self).tracking_view(),
                    crate::session::nodes_of(sessions@, NodeType::Agent),
                    old(self).rr_counter,
                ) == Ok::<Seq<char>, RouteError>(target@) && exists|j: int|
                    0 <= j < sessions@.len() && (#[trigger] sessions@[j]).node_id@ == target@
                        && frame_carries(frame, m@, sessions@[j].message_format),
                Err(e) => match spec_route_target(
                    m@,
                    sender_node_type,
                    old(self).tracking_view(),
                    crate::session::nodes_of(sessions@, NodeType::Agent),
                    old(self).rr_counter,
                ) {
                    Err(e0) => e == e0,
                    Ok(t) => e == RouteError::TargetNotConnected && (forall|j: int|
                        0 <= j < sessions@.len() ==> (#[trigger] sessions@[j]).node_id@ != t),
                },
            },
            r is Ok ==> final(self).stats.messages_routed == old(self).stats.messages_routed + 1
                && final(self).stats.failed_routes == old(self).stats.failed_routes,
            r is Err ==> final(self).stats.failed_routes == old(self).stats.failed_routes + 1
                && final(self).stats.messages_routed == old(self).stats.messages_routed,
            final(self).tracking_view() == old(self).tracking_view(),
            r is Ok ==> spec_is_response(m@) || spec_request_id(m@) is Some || m@ is EstablishChannel,
    {
        let target = self.determine_target(m, sender_node_type, sessions);
        match target {
            Err(e) => {
                self.stats.failed_routes = self.stats.failed_routes + 1;
                Err(e)
            },
            Ok(t) => {
                match sessions.get_session_by_node(t.as_str()) {
                    None => {
                        self.stats.failed_routes = self.stats.failed_routes + 1;
                        Err(RouteError::TargetNotConnected)
                    },
                    Some(s) => {
                        let frame = encode_frame(m, s.message_format);
                        self.stats.messages_routed = self.stats.messages_routed + 1;
                        Ok((t, frame))
                    },
                }
            },
        }
    }

    fn determine_target(
        &mut self,
        m: &Message,
        sender_node_type: NodeType,
        sessions: &SessionManager,
    ) -> (r: Result<String, RouteError>)
        ensures
            final(self).stats == old(self).stats,
            final(self).tracking_view() == old(self).tracking_view(),
            match r {
                Ok(t) => spec_route_target(
                    m@,
                    sender_node_type,
                    old(self).tracking_view(),
                    crate::session::nodes_of(sessions@, NodeType::Agent),
                    old(self).rr_counter,
                ) == Ok::<Seq<char>, RouteError>(t@),
                Err(e) => spec_route_target(
                    m@,
                    sender_node_type,
                    old(self).tracking_view(),
                    crate::session::nodes_of(sessions@, NodeType::Agent),
                    old(self).rr_counter,
                ) == Err::<Seq<char>, RouteError>(e),
            },
            r is Ok ==> spec_is_response(m@) || spec_request_id(m@) is Some || m@ is EstablishChannel,
    {
        if let Message::EstablishChannel { target_node, .. } = m {
            return Ok(crate::strutil::clone_string(target_node));
        }
        let is_resp = m.is_response();
        let rid = m.request_id();
        if rid.is_none() && !is_resp {
            return Err(RouteError::NotRoutable);
        }
        if is_resp {
            match rid {
                None => Err(RouteError::NotRoutable),
                Some(id) => match self.get_request_originator(id) {
                    Some(n) => Ok(n),
                    None => Err(RouteError::UnknownOriginator),
                },
            }
        } else {
            match sender_node_type {
                NodeType::Client => {
                    let agents = sessions.get_active_nodes(NodeType::Agent);
                    if agents.len() == 0 {
                        return Err(RouteError::NoAgentsAvailable);
                    }
                    let idx = (self.rr_counter % (agents.len() as u64)) as usize;
                    self.rr_counter = self.rr_counter.wrapping_add(1);
                    let mut agents = agents;
                    let ghost av = crate::protocol::strings_view(agents);
                    let chosen = agents.remove(idx);
                    proof {
                        assert(av[idx as int] == chosen@);
                    }
                    Ok(chosen)
                },
                _ => Err(RouteError::NotRoutable),
            }
        }
    }
}


} // verus!

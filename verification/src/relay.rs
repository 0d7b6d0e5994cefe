//! The relay's per-link step: what one inbound message makes the
//! relay do.  Before authentication only an authentication request is
//! accepted; a ping is answered in place; everything else is routed.
//! The link's I/O — reading the frame, sending what the action names,
//! closing the socket — is the caller's.

use vstd::prelude::*;
use crate::protocol::{
    ErrorCode, Message, MessageV, NodeType, spec_is_response, spec_request_id, strings_view,
};
use crate::auth::{AuthManager, AuthFailure, auth_accepts};
use crate::session::{Session, SessionManager};
use crate::routing::{MessageRouter, RouteError, spec_route_target};
use crate::frames::{Frame, MessageFormat, frame_carries};
use crate::agentexec::{error_label, spec_error_label};

verus! {

/// What the relay does with one inbound message.
pub enum RelayAction {
    /// Send this message back on the same link.
    Respond(Message),
    /// Forward this frame to the named peer.
    Route(String, Frame),
    /// Close the link: a message that is not allowed before
    /// authentication.
    Close,
}

/// The error code a routing failure reports to the sender.
pub open spec fn spec_route_error_code(e: RouteError) -> ErrorCode {
    match e {
        RouteError::NotRoutable => ErrorCode::InvalidMessage,
        RouteError::NoAgentsAvailable => ErrorCode::ServiceUnavailable,
        RouteError::UnknownOriginator => ErrorCode::InvalidMessage,
        RouteError::TargetNotConnected => ErrorCode::ServiceUnavailable,
    }
}

fn route_error_code(e: RouteError) -> (r: ErrorCode)
    ensures
        r == spec_route_error_code(e),
{
    match e {
        RouteError::NotRoutable => ErrorCode::InvalidMessage,
        RouteError::NoAgentsAvailable => ErrorCode::ServiceUnavailable,
        RouteError::UnknownOriginator => ErrorCode::InvalidMessage,
        RouteError::TargetNotConnected => ErrorCode::ServiceUnavailable,
    }
}

/// One step of an authenticated link: a ping is answered with a pong
/// echoing its timestamp; any other message is routed, and a routing
/// failure is answered with an error response naming the failure and
/// echoing the message's request id.
pub fn authed_step(
    session: &Session,
    m: &Message,
    sessions: &SessionManager,
    router: &mut MessageRouter,
    now: u64,
) -> (r: RelayAction)
    requires
        old(router).stats.messages_routed < u64::MAX,
        old(router).stats.failed_routes < u64::MAX,
    ensures
        final(router).tracking_view() == old(router).tracking_view(),
        m@ matches MessageV::Ping { timestamp } ==> (r matches RelayAction::Respond(p) && (p@
            matches MessageV::Pong { timestamp: t, original_timestamp: o } && t == now && o
            == timestamp)) && final(router).stats == old(router).stats,
        !(m@ is Ping) ==> ({
            let verdict = spec_route_target(
                m@,
                session.node_type,
                old(router).tracking_view(),
                crate::session::nodes_of(sessions@, NodeType::Agent),
                old(router).rr_counter,
            );
            match r {
                RelayAction::Route(target, frame) => verdict == Ok::<Seq<char>, RouteError>(
                    target@,
                ) && exists|j: int|
                    0 <= j < sessions@.len() && (#[trigger] sessions@[j]).node_id@ == target@
                        && frame_carries(frame, m@, sessions@[j].message_format),
                RelayAction::Respond(p) => p@ matches MessageV::Error {
                    request_id: rid,
                    code,
                    message,
                    details,
                } && rid == spec_request_id(m@) && (match verdict {
                    Err(e) => code == spec_route_error_code(e) && message == spec_error_label(
                        spec_route_error_code(e),
                    ),
                    Ok(t) => code == ErrorCode::ServiceUnavailable && (forall|j: int|
                        0 <= j < sessions@.len() ==> (#[trigger] sessions@[j]).node_id@ != t),
                }) && details.len() == 0,
                RelayAction::Close => false,
            }
        }),
{
    if let Message::Ping { timestamp } = m {
        return RelayAction::Respond(
            Message::Pong { timestamp: now, original_timestamp: *timestamp },
        );
    }
    let rid = m.request_id();
    match router.route_message(m, session.node_type, sessions) {
        Ok((target, frame)) => RelayAction::Route(target, frame),
        Err(e) => {
            let code = route_error_code(e);
            RelayAction::Respond(
                Message::Error {
                    request_id: rid,
                    code,
                    message: error_label(code),
                    details: Vec::new(),
                },
            )
        },
    }
}

/// One step of a link that has not authenticated yet: an
/// authentication request is judged, and success installs the node's
/// session and answers with its token; anything else closes the link.
/// The fresh session id is the caller's to mint and must be unused.
pub fn preauth_step(
    session_id: &str,
    connection_id: u128,
    format: MessageFormat,
    m: &Message,
    auth: &mut AuthManager,
    sessions: &mut SessionManager,
    now: u64,
) -> (r: RelayAction)
    requires
        old(sessions).wf(),
        forall|j: int| 0 <= j < old(sessions)@.len() ==> (#[trigger] old(sessions)@[j]).id@
            != session_id@,
    ensures
        final(sessions).wf(),
        !(m@ is AuthRequest) ==> r is Close && final(sessions)@ == old(sessions)@ && final(auth)@
            == old(auth)@,
        m@ matches MessageV::AuthRequest { node_id, node_type, public_key, capabilities } ==> ({
            let accepted = auth_accepts(
                node_id,
                node_type,
                public_key.len() as int,
                capabilities,
                old(auth).enable_auth,
                strings_view(old(auth).allowed_clients),
            );
            &&& (r matches RelayAction::Respond(p) && (p@ matches MessageV::AuthResponse {
                success,
                session_token,
                ..
            } && success == accepted && (accepted ==> session_token is Some)))
            &&& (accepted ==> final(sessions)@.len() == old(sessions)@.len() + (if exists|j: int|
                0 <= j < old(sessions)@.len() && (#[trigger] old(sessions)@[j]).node_id@
                    == node_id {
                0int
            } else {
                1int
            }) && final(sessions)@.last().node_id@ == node_id && final(sessions)@.last().id@
                == session_id@ && final(sessions)@.last().node_type == node_type
                && final(sessions)@.last().message_format == format
                && final(sessions)@.last().connection_id == connection_id)
            &&& (!accepted ==> final(sessions)@ == old(sessions)@ && final(auth)@ == old(auth)@)
        }),
{
    match m {
        Message::AuthRequest { node_id, node_type, public_key, capabilities } => {
            match auth.authenticate_node(node_id.as_str(), *node_type, public_key, capabilities, now) {
                Ok(token) => {
                    let session = Session {
                        id: crate::strutil::str_to_string(session_id),
                        node_id: crate::strutil::clone_string(node_id),
                        node_type: *node_type,
                        connection_id,
                        created_at: now,
                        last_activity: now,
                        message_format: format,
                    };
                    sessions.add_session(session);
                    RelayAction::Respond(
                        Message::AuthResponse {
                            success: true,
                            session_token: Some(token),
                            relay_info: None,
                            error: None,
                        },
                    )
                },
                Err(f) => {
                    let code = match f {
                        AuthFailure::InvalidNodeId => ErrorCode::InvalidCredentials,
                        AuthFailure::InvalidNodeType => ErrorCode::InvalidCredentials,
                        AuthFailure::InvalidPublicKey => ErrorCode::InvalidCredentials,
                        AuthFailure::InvalidCapabilities => ErrorCode::InvalidCredentials,
                        AuthFailure::NotAllowed => ErrorCode::AuthenticationFailed,
                    };
                    RelayAction::Respond(
                        Message::AuthResponse {
                            success: false,
                            session_token: None,
                            relay_info: None,
                            error: Some(error_label(code)),
                        },
                    )
                },
            }
        },
        _ => RelayAction::Close,
    }
}

} // verus!

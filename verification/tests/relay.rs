use remotefs::client::ClientStats;
use remotefs::frames::MessageFormat;
use remotefs::protocol::NodeType;
use remotefs::routing::MessageRouter;
use remotefs::session::{Session, SessionManager};

fn session(id: &str, node: &str, t: NodeType) -> Session {
    Session {
        id: id.to_string(),
        node_id: node.to_string(),
        node_type: t,
        connection_id: 1,
        created_at: 0,
        last_activity: 0,
        message_format: MessageFormat::Binary,
    }
}

#[test]
fn session_node_ids_stay_unique() {
    let mut mgr = SessionManager::new();
    assert!(mgr.add_session(session("s1", "client-a", NodeType::Client)).is_none());
    assert!(mgr.add_session(session("s2", "agent-b", NodeType::Agent)).is_none());
    // A second session for the same node replaces the first.
    let replaced = mgr.add_session(session("s3", "client-a", NodeType::Client));
    assert!(replaced.is_some());
    assert_eq!(replaced.unwrap().id, "s1");
    assert!(mgr.is_node_connected("client-a"));
    assert!(mgr.get_session("s1").is_none());
    assert!(mgr.get_session("s3").is_some());
    assert_eq!(mgr.get_stats().active_sessions, 2);
}

#[test]
fn session_expiry_removes_stale_entries() {
    let mut mgr = SessionManager::new();
    mgr.add_session(session("s1", "client-a", NodeType::Client));
    mgr.add_session(session("s2", "agent-b", NodeType::Agent));
    assert!(mgr.update_session_activity("s2", 100));
    let removed = mgr.cleanup_expired_sessions(50, 120);
    assert_eq!(removed, 1);
    assert!(!mgr.is_node_connected("client-a"));
    assert!(mgr.is_node_connected("agent-b"));
}

#[test]
fn request_tracking_finds_originator() {
    let mut router = MessageRouter::new();
    router.track_request(41, "client-a".to_string(), "agent-b".to_string(), 10);
    router.track_request(42, "client-c".to_string(), "agent-b".to_string(), 11);
    assert_eq!(router.get_request_originator(42).as_deref(), Some("client-c"));
    assert_eq!(router.get_request_originator(41).as_deref(), Some("client-a"));
    assert!(router.get_request_originator(7).is_none());
    let removed = router.cleanup_old_requests(5, 100);
    assert_eq!(removed, 2);
}

#[test]
fn client_stats_stay_balanced() {
    let mut s = ClientStats::new();
    s.record_success(16, 0);
    s.record_success(0, 5);
    s.record_failure();
    assert_eq!(s.operations_total, 3);
    assert_eq!(s.operations_successful + s.operations_failed, s.operations_total);
    assert_eq!(s.bytes_read, 16);
    assert_eq!(s.bytes_written, 5);
}

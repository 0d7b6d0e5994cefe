use remotefs::access::{AccessControl, AccessDecision, AccessKind, AccessPolicy};
use remotefs::agentexec::{
    delete_file_response, read_file_response, write_file_response, write_precheck,
};
use remotefs::auth::AuthManager;
use remotefs::client::{
    ConnEvent, ConnectionState, RetryStrategy, connect_step, is_retryable, retry_decision,
    select_least_connections, select_random, select_weighted_round_robin,
};
use remotefs::frames::MessageFormat;
use remotefs::protocol::{ErrorCode, Message, NodeType};
use remotefs::relay::{RelayAction, authed_step, preauth_step};
use remotefs::routing::MessageRouter;
use remotefs::session::SessionManager;
use remotefs::bytesize::parse_bytes;
use remotefs::status::FilesystemStatistics;

fn zero_stats() -> FilesystemStatistics {
    FilesystemStatistics {
        active_operations: 0,
        total_operations: 0,
        error_count: 0,
        bytes_read: 0,
        bytes_written: 0,
    }
}

#[test]
fn read_response_echoes_id_and_counts_bytes() {
    let mut stats = zero_stats();
    let r = read_file_response(77, Ok(vec![1, 2, 3, 4]), &mut stats);
    match r {
        Message::ReadFileResponse { request_id, success, data, bytes_read, error } => {
            assert_eq!(request_id, 77);
            assert!(success);
            assert_eq!(data.unwrap(), vec![1, 2, 3, 4]);
            assert_eq!(bytes_read, 4);
            assert!(error.is_none());
        }
        _ => panic!("wrong response variant"),
    }
    assert_eq!(stats.total_operations, 1);
    assert_eq!(stats.bytes_read, 4);
    assert_eq!(stats.error_count, 0);

    let r = read_file_response(78, Err(ErrorCode::FileNotFound), &mut stats);
    match r {
        Message::ReadFileResponse { request_id, success, data, bytes_read, error } => {
            assert_eq!(request_id, 78);
            assert!(!success);
            assert!(data.is_none());
            assert_eq!(bytes_read, 0);
            assert_eq!(error.unwrap(), "file not found");
        }
        _ => panic!("wrong response variant"),
    }
    assert_eq!(stats.total_operations, 2);
    assert_eq!(stats.error_count, 1);
    assert_eq!(stats.bytes_read, 4);
}

#[test]
fn write_response_counts_bytes_written() {
    let mut stats = zero_stats();
    let r = write_file_response(5, Ok(16), &mut stats);
    match r {
        Message::WriteFileResponse { request_id, success, bytes_written, error } => {
            assert_eq!(request_id, 5);
            assert!(success);
            assert_eq!(bytes_written, 16);
            assert!(error.is_none());
        }
        _ => panic!("wrong response variant"),
    }
    assert_eq!(stats.bytes_written, 16);

    let r = delete_file_response(6, Err(ErrorCode::AccessDenied), &mut stats);
    match r {
        Message::DeleteFileResponse { request_id, success, error } => {
            assert_eq!(request_id, 6);
            assert!(!success);
            assert_eq!(error.unwrap(), "access denied");
        }
        _ => panic!("wrong response variant"),
    }
    assert_eq!(stats.bytes_written, 16);
    assert_eq!(stats.error_count, 1);
}

#[test]
fn write_precheck_holds_the_cap() {
    assert!(write_precheck(0, 1024, 1024));
    assert!(!write_precheck(1, 1024, 1024));
    assert!(!write_precheck(2000, 1, 1024));
    assert!(write_precheck(1000, 24, 1024));
}

#[test]
fn connection_steps_are_lawful() {
    let (s, d) = connect_step(ConnectionState::Connecting, 1, ConnEvent::Opened, 5, 2);
    assert_eq!(s, ConnectionState::Connected);
    assert!(d.is_none());

    let (s, d) = connect_step(ConnectionState::Connecting, 1, ConnEvent::FailedAttempt, 5, 2);
    assert_eq!(s, ConnectionState::Reconnecting);
    assert_eq!(d, Some(2));

    let (s, d) = connect_step(ConnectionState::Connecting, 5, ConnEvent::FailedAttempt, 5, 2);
    assert_eq!(s, ConnectionState::Failed);
    assert!(d.is_none());

    let (s, d) = connect_step(ConnectionState::Connected, 3, ConnEvent::Lost, 5, 2);
    assert_eq!(s, ConnectionState::Reconnecting);
    assert_eq!(d, Some(8));

    let (s, d) = connect_step(ConnectionState::Connected, 1, ConnEvent::Shutdown, 5, 2);
    assert_eq!(s, ConnectionState::Disconnected);
    assert!(d.is_none());
}

#[test]
fn retry_decisions() {
    assert!(is_retryable(ErrorCode::NetworkError));
    assert!(is_retryable(ErrorCode::ServiceUnavailable));
    assert!(!is_retryable(ErrorCode::AccessDenied));

    let s = RetryStrategy::Exponential { base_delay_ms: 100, max_delay_ms: 1000 };
    assert_eq!(retry_decision(true, 0, 3, &s), Some(100));
    assert_eq!(retry_decision(true, 2, 3, &s), Some(400));
    assert_eq!(retry_decision(true, 3, 3, &s), None);
    assert_eq!(retry_decision(false, 0, 3, &s), None);
}

#[test]
fn load_balancing_selectors() {
    let weights = vec![1u32, 2u32];
    assert_eq!(select_weighted_round_robin(&weights, 0), Some(0));
    assert_eq!(select_weighted_round_robin(&weights, 1), Some(1));
    assert_eq!(select_weighted_round_robin(&weights, 2), Some(1));
    assert_eq!(select_weighted_round_robin(&weights, 3), Some(0));
    assert_eq!(select_weighted_round_robin(&vec![0u32, 0u32], 7), None);

    assert_eq!(select_least_connections(&vec![3u64, 1, 2]), Some(1));
    assert_eq!(select_least_connections(&vec![2u64, 1, 1]), Some(1));
    assert_eq!(select_least_connections(&Vec::new()), None);

    assert_eq!(select_random(4, 6), Some(2));
    assert_eq!(select_random(0, 6), None);
}

#[test]
fn preauth_accepts_only_auth_requests() {
    let mut auth = AuthManager::new(3600, false, Vec::new());
    let mut sessions = SessionManager::new();
    let ping = Message::Ping { timestamp: 1 };
    let act = preauth_step("s1", 9, MessageFormat::Binary, &ping, &mut auth, &mut sessions, 10);
    assert!(matches!(act, RelayAction::Close));
    assert_eq!(sessions.get_stats().active_sessions, 0);

    let req = Message::AuthRequest {
        node_id: "client-a".to_string(),
        node_type: NodeType::Client,
        public_key: vec![0u8; 32],
        capabilities: vec![],
    };
    let act = preauth_step("s1", 9, MessageFormat::Binary, &req, &mut auth, &mut sessions, 10);
    match act {
        RelayAction::Respond(Message::AuthResponse { success, session_token, .. }) => {
            assert!(success);
            let token = session_token.unwrap();
            assert!(token.ends_with("_client-a"));
            assert_eq!(token.len(), 36 + 1 + "client-a".len());
            assert!(auth.validate_token(&token, 11).is_ok());
        }
        _ => panic!("expected an auth response"),
    }
    assert!(sessions.is_node_connected("client-a"));

    let bad = Message::AuthRequest {
        node_id: "bad id!".to_string(),
        node_type: NodeType::Client,
        public_key: vec![0u8; 32],
        capabilities: vec![],
    };
    let act = preauth_step("s2", 9, MessageFormat::Binary, &bad, &mut auth, &mut sessions, 10);
    match act {
        RelayAction::Respond(Message::AuthResponse { success, session_token, .. }) => {
            assert!(!success);
            assert!(session_token.is_none());
        }
        _ => panic!("expected an auth response"),
    }
}

#[test]
fn authed_step_answers_ping_and_reports_routing_failure() {
    let mut auth = AuthManager::new(3600, false, Vec::new());
    let mut sessions = SessionManager::new();
    let mut router = MessageRouter::new();
    let req = Message::AuthRequest {
        node_id: "client-a".to_string(),
        node_type: NodeType::Client,
        public_key: vec![0u8; 32],
        capabilities: vec![],
    };
    preauth_step("s1", 9, MessageFormat::Binary, &req, &mut auth, &mut sessions, 10);
    let session = sessions.get_session("s1").unwrap().clone();

    let ping = Message::Ping { timestamp: 4 };
    match authed_step(&session, &ping, &sessions, &mut router, 99) {
        RelayAction::Respond(Message::Pong { timestamp, original_timestamp }) => {
            assert_eq!(timestamp, 99);
            assert_eq!(original_timestamp, 4);
        }
        _ => panic!("expected a pong"),
    }

    // A read with no live agent must come back as a service error.
    let read = Message::ReadFile { request_id: 1, path: "/tmp/x".to_string(), offset: 0, length: 1 };
    match authed_step(&session, &read, &sessions, &mut router, 99) {
        RelayAction::Respond(Message::Error { request_id, code, message, .. }) => {
            assert_eq!(request_id, Some(1));
            assert_eq!(code, ErrorCode::ServiceUnavailable);
            assert_eq!(message, "service unavailable");
        }
        _ => panic!("expected an error response"),
    }
    assert_eq!(router.get_stats().failed_routes, 1);
}

#[test]
fn raw_path_gate_composes_validation_and_policy() {
    let policy = AccessPolicy {
        allowed_paths: vec!["/tmp".to_string()],
        read_only_paths: vec![],
        denied_paths: vec![],
        allowed_extensions: vec![],
        denied_extensions: vec![],
        max_file_size: 1024,
        follow_symlinks: false,
    };
    let mut ac = AccessControl::new(policy);

    let (d, p) = ac.check_raw_path("/tmp/a/../b.txt", AccessKind::Read, false);
    assert_eq!(d, AccessDecision::Granted);
    assert_eq!(p.unwrap(), "/tmp/b.txt");

    let (d, p) = ac.check_raw_path("../../etc/passwd", AccessKind::Read, false);
    assert_eq!(d, AccessDecision::DeniedPath);
    assert!(p.is_none());

    let (d, _) = ac.check_raw_path("", AccessKind::Read, false);
    assert_eq!(d, AccessDecision::DeniedPath);

    let stats = ac.get_statistics();
    assert_eq!(stats.allowed_requests, 1);
    assert_eq!(stats.denied_requests, 2);
    assert_eq!(stats.path_violations, 2);
}

#[test]
fn extension_entries_match_case_insensitively() {
    let policy = AccessPolicy {
        allowed_paths: vec!["/tmp".to_string()],
        read_only_paths: vec![],
        denied_paths: vec![],
        allowed_extensions: vec![],
        denied_extensions: vec!["EXE".to_string()],
        max_file_size: 1024,
        follow_symlinks: false,
    };
    let mut ac = AccessControl::new(policy);
    assert_eq!(
        ac.check_access("/tmp/tool.exe", AccessKind::Read, false),
        AccessDecision::DeniedExtension
    );
    assert_eq!(
        ac.check_access("/tmp/TOOL.EXE", AccessKind::Read, false),
        AccessDecision::DeniedExtension
    );
}

#[test]
fn revoked_token_no_longer_validates() {
    let mut auth = AuthManager::new(3600, false, Vec::new());
    let token = auth
        .authenticate_node("client-a", NodeType::Client, &vec![0u8; 32], &vec![], 10)
        .unwrap();
    assert!(auth.validate_token(&token, 11).is_ok());
    assert!(auth.revoke_token(&token));
    assert!(auth.validate_token(&token, 11).is_err());
    assert!(!auth.revoke_token(&token));
}

#[test]
fn fresh_tracking_entries_survive_the_sweep() {
    let mut router = MessageRouter::new();
    router.track_request(41, "client-a".to_string(), "agent-b".to_string(), 1000);
    assert_eq!(router.cleanup_old_requests(3600, 1001), 0);
    assert_eq!(router.get_request_originator(41).as_deref(), Some("client-a"));
    assert_eq!(router.cleanup_old_requests(0, 1001), 1);
    assert!(router.get_request_originator(41).is_none());
}

#[test]
fn parse_bytes_rejects_bad_input() {
    assert_eq!(parse_bytes(""), None);
    assert_eq!(parse_bytes("abc"), None);
    assert_eq!(parse_bytes("1 XB"), None);
    assert_eq!(parse_bytes("1."), None);
    assert_eq!(parse_bytes(" 1.5 kb "), Some(1536));
    assert_eq!(parse_bytes("2t"), Some(2 * 1024 * 1024 * 1024 * 1024));
}

#[test]
fn session_stats_count_by_role() {
    let mut sessions = SessionManager::new();
    let mut auth = AuthManager::new(3600, false, Vec::new());
    for (sid, nid, t) in [
        ("s1", "client-a", NodeType::Client),
        ("s2", "agent-b", NodeType::Agent),
        ("s3", "client-c", NodeType::Client),
    ] {
        let req = Message::AuthRequest {
            node_id: nid.to_string(),
            node_type: t,
            public_key: vec![0u8; 32],
            capabilities: vec![],
        };
        preauth_step(sid, 1, MessageFormat::Binary, &req, &mut auth, &mut sessions, 10);
    }
    let stats = sessions.get_stats();
    assert_eq!(stats.active_sessions, 3);
    assert_eq!(stats.total_clients, 2);
    assert_eq!(stats.total_agents, 1);
    let agents = sessions.get_active_nodes(NodeType::Agent);
    assert_eq!(agents, vec!["agent-b".to_string()]);
    let auth_stats = auth.get_auth_stats();
    assert_eq!(auth_stats.authenticated_clients, 2);
    assert_eq!(auth_stats.authenticated_agents, 1);
}

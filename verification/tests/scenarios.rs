use remotefs::access::{AccessControl, AccessDecision, AccessKind, AccessPolicy};
use remotefs::client::{PendingTable, RetryStrategy, calculate_retry_delay};
use remotefs::frames::{Frame, MessageFormat, decode_frame, encode_frame};
use remotefs::msgexec::{decode_message, encode_message};
use remotefs::protocol::Message;

fn policy(
    allowed: Vec<&str>,
    read_only: Vec<&str>,
    denied: Vec<&str>,
    allowed_ext: Vec<&str>,
    denied_ext: Vec<&str>,
    cap: u64,
) -> AccessPolicy {
    AccessPolicy {
        allowed_paths: allowed.into_iter().map(String::from).collect(),
        read_only_paths: read_only.into_iter().map(String::from).collect(),
        denied_paths: denied.into_iter().map(String::from).collect(),
        allowed_extensions: allowed_ext.into_iter().map(String::from).collect(),
        denied_extensions: denied_ext.into_iter().map(String::from).collect(),
        max_file_size: cap,
        follow_symlinks: false,
    }
}

#[test]
fn happy_path_read_allowed() {
    let p = policy(vec!["/tmp"], vec![], vec![], vec![], vec![], 1024 * 1024);
    let mut ac = AccessControl::new(p);
    let d = ac.check_access("/tmp/hello.txt", AccessKind::Read, false);
    assert_eq!(d, AccessDecision::Granted);
    assert!(ac.check_file_size(16));
    let stats = ac.get_statistics();
    assert_eq!(stats.allowed_requests, 1);
    assert_eq!(stats.denied_requests, 0);
}

#[test]
fn denied_path_write_counts_violation() {
    let p = policy(vec!["/tmp"], vec![], vec!["/etc"], vec![], vec![], 1024);
    let mut ac = AccessControl::new(p);
    let d = ac.check_access("/etc/shadow", AccessKind::Write, false);
    assert_eq!(d, AccessDecision::DeniedPath);
    let stats = ac.get_statistics();
    assert_eq!(stats.denied_requests, 1);
    assert_eq!(stats.path_violations, 1);
}

#[test]
fn read_only_path_rejects_write_allows_read() {
    let p = policy(vec!["/ro"], vec!["/ro"], vec![], vec![], vec![], 1024);
    let mut ac = AccessControl::new(p);
    let w = ac.check_access("/ro/a.txt", AccessKind::Write, false);
    assert_eq!(w, AccessDecision::ReadOnlyPath);
    let r = ac.check_access("/ro/a.txt", AccessKind::Read, false);
    assert_eq!(r, AccessDecision::Granted);
}

#[test]
fn extension_filter_scenario() {
    let p = policy(vec!["/tmp"], vec![], vec![], vec!["txt", "md"], vec!["exe"], 1024);
    let mut ac = AccessControl::new(p);
    assert_eq!(ac.check_access("/tmp/a.exe", AccessKind::Read, false), AccessDecision::DeniedExtension);
    assert_eq!(ac.check_access("/tmp/a.txt", AccessKind::Read, false), AccessDecision::Granted);
    assert_eq!(
        ac.check_access("/tmp/a.jpg", AccessKind::Read, false),
        AccessDecision::ExtensionNotAllowed
    );
}

#[test]
fn size_cap_refuses_before_any_action() {
    let p = policy(vec!["/tmp"], vec![], vec![], vec![], vec![], 1024 * 1024);
    let mut ac = AccessControl::new(p);
    assert!(!ac.check_file_size(1024 * 1024 + 1));
    let stats = ac.get_statistics();
    assert_eq!(stats.size_violations, 1);
}

#[test]
fn exponential_retry_delays() {
    let s = RetryStrategy::Exponential { base_delay_ms: 100, max_delay_ms: 1000 };
    assert_eq!(calculate_retry_delay(&s, 0), Some(100));
    assert_eq!(calculate_retry_delay(&s, 1), Some(200));
    assert_eq!(calculate_retry_delay(&s, 2), Some(400));
    assert_eq!(calculate_retry_delay(&s, 5), Some(1000));
    assert_eq!(calculate_retry_delay(&RetryStrategy::NoRetry, 0), None);
}

#[test]
fn correlation_under_interleave() {
    let mut table = PendingTable::new();
    assert!(table.register(1, 100));
    assert!(table.register(2, 100));
    // The second request completes first; each caller gets its own id.
    let e2 = table.take(2).unwrap();
    assert_eq!(e2.request_id, 2);
    let e1 = table.take(1).unwrap();
    assert_eq!(e1.request_id, 1);
    assert!(table.take(1).is_none());
    assert_eq!(table.len(), 0);
}

#[test]
fn message_round_trip_binary() {
    let m = Message::ReadFile {
        request_id: 7,
        path: "/tmp/hello.txt".to_string(),
        offset: 0,
        length: 16,
    };
    let bytes = encode_message(&m);
    let back = decode_message(&bytes).unwrap();
    match back {
        Message::ReadFile { request_id, path, offset, length } => {
            assert_eq!(request_id, 7);
            assert_eq!(path, "/tmp/hello.txt");
            assert_eq!(offset, 0);
            assert_eq!(length, 16);
        }
        _ => panic!("wrong variant after round trip"),
    }
}

#[test]
fn frame_round_trip_both_formats() {
    let m = Message::WriteFileResponse {
        request_id: 9,
        success: true,
        bytes_written: 5,
        error: None,
    };
    for fmt in [MessageFormat::Binary, MessageFormat::Text] {
        let f = encode_frame(&m, fmt);
        match (&f, fmt) {
            (Frame::Binary(_), MessageFormat::Binary) => {}
            (Frame::Text(_), MessageFormat::Text) => {}
            _ => panic!("frame does not match the negotiated format"),
        }
        let back = decode_frame(&f, 1 << 20).unwrap();
        match back {
            Message::WriteFileResponse { request_id, success, bytes_written, error } => {
                assert_eq!(request_id, 9);
                assert!(success);
                assert_eq!(bytes_written, 5);
                assert!(error.is_none());
            }
            _ => panic!("wrong variant after frame round trip"),
        }
    }
}

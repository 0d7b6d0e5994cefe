use remotefs::paths::{clean_path, normalize_path};
use remotefs::bytesize::{format_bytes, parse_bytes};
use remotefs::validation::{validate_file_path, validate_node_id, validate_public_key};
use remotefs::{NAME, VERSION};

#[test]
fn access_test_path_normalization() {
    assert_eq!(normalize_path("/tmp").unwrap(), "/tmp");
    assert_eq!(clean_path("/tmp/../etc"), "/etc");
    assert_eq!(clean_path("/tmp/./file"), "/tmp/file");
    assert_eq!(clean_path("/tmp/dir/../file"), "/tmp/file");
}

#[test]
fn test_version_info() {
    assert!(!VERSION.is_empty());
    assert!(!NAME.is_empty());
}

#[test]
fn utils_test_path_normalization() {
    assert_eq!(normalize_path("/test/../safe/path").unwrap(), "/safe/path");
    assert_eq!(normalize_path("./relative/path").unwrap(), "relative/path");
    assert!(normalize_path("../../../etc/passwd").is_none());
}

#[test]
fn test_bytes_formatting() {
    assert_eq!(format_bytes(0), "0 B");
    assert_eq!(format_bytes(1024), "1.0 KB");
    assert_eq!(format_bytes(1024 * 1024), "1.0 MB");
    assert_eq!(format_bytes(1536 * 1024 * 1024), "1.5 GB");
}

#[test]
fn test_bytes_parsing() {
    assert_eq!(parse_bytes("1024").unwrap(), 1024);
    assert_eq!(parse_bytes("1 KB").unwrap(), 1024);
    assert_eq!(parse_bytes("1.5 MB").unwrap(), (3 * 1024 * 1024) / 2);
    assert_eq!(parse_bytes("2 GB").unwrap(), 2 * 1024 * 1024 * 1024);
}

#[test]
fn test_validation() {
    assert!(validate_node_id("client-123"));
    assert!(validate_node_id("agent_server"));
    assert!(!validate_node_id(""));
    assert!(!validate_node_id("invalid@id"));

    assert!(validate_file_path("/valid/path"));
    assert!(!validate_file_path(""));
    assert!(!validate_file_path("path\0with\0null"));
}

#[test]
fn test_version() {
    assert!(!VERSION.is_empty());
}

#[test]
fn node_id_length_bounds() {
    let ok: String = "a".repeat(64);
    let too_long: String = "a".repeat(65);
    assert!(validate_node_id(&ok));
    assert!(!validate_node_id(&too_long));
}

#[test]
fn file_path_length_bounds() {
    let ok: String = "p".repeat(4096);
    let too_long: String = "p".repeat(4097);
    assert!(validate_file_path(&ok));
    assert!(!validate_file_path(&too_long));
}

#[test]
fn public_key_length_bounds() {
    let good: Vec<u8> = vec![7u8; 32];
    let short: Vec<u8> = vec![7u8; 31];
    let long: Vec<u8> = vec![7u8; 33];
    assert!(validate_public_key(&good));
    assert!(!validate_public_key(&short));
    assert!(!validate_public_key(&long));
}

use remotefs::crypto::{CryptoError, EncryptedData, KeyContext, NONCE_SIZE};
use remotefs::bytesize::hash_bytes;
use remotefs::clock::{current_timestamp, expired_at};
use remotefs::filters::{
    has_allowed_extension, has_denied_extension, is_path_allowed, is_path_denied, safe_join,
};

#[test]
fn envelope_round_trip() {
    let e = EncryptedData {
        nonce: (0u8..12).collect(),
        ciphertext: vec![9, 8, 7, 6, 5],
    };
    let bytes = e.to_bytes();
    assert_eq!(bytes.len(), e.size());
    assert_eq!(bytes.len(), NONCE_SIZE + 5);
    let back = EncryptedData::from_bytes(&bytes).unwrap();
    assert_eq!(back.nonce, e.nonce);
    assert_eq!(back.ciphertext, e.ciphertext);
}

#[test]
fn envelope_too_short_rejected() {
    let bytes: Vec<u8> = vec![1u8; NONCE_SIZE - 1];
    assert!(matches!(EncryptedData::from_bytes(&bytes), Err(CryptoError::DataTooShort)));
    let bytes: Vec<u8> = vec![1u8; NONCE_SIZE];
    let e = EncryptedData::from_bytes(&bytes).unwrap();
    assert!(e.ciphertext.is_empty());
}

#[test]
fn key_contexts_are_distinct() {
    assert_ne!(KeyContext::FileEncryption, KeyContext::MessageEncryption);
    assert_ne!(KeyContext::SessionKey, KeyContext::AuthToken);
}

#[test]
fn hash_bytes_depends_on_data() {
    let a = hash_bytes(&vec![1, 2, 3]);
    let b = hash_bytes(&vec![1, 2, 3]);
    let c = hash_bytes(&vec![3, 2, 1]);
    assert_eq!(a, b);
    assert_ne!(a, c);
}

#[test]
fn expiry_comparison() {
    assert!(expired_at(100, 50, 151));
    assert!(!expired_at(100, 50, 150));
    let now = current_timestamp();
    assert!(now > 1_600_000_000);
}

#[test]
fn path_filters() {
    let allowed = vec!["/tmp".to_string(), "/home/user".to_string()];
    let denied = vec!["/etc".to_string()];
    let none: Vec<String> = vec![];

    assert!(is_path_allowed("/tmp/file", &allowed));
    assert!(!is_path_allowed("/var/file", &allowed));
    assert!(is_path_allowed("/anything", &none));

    assert!(is_path_denied("/etc/passwd", &denied));
    assert!(!is_path_denied("/tmp/safe", &denied));
    assert!(!is_path_denied("/anything", &none));
}

#[test]
fn extension_filters() {
    let exts = vec!["txt".to_string(), "md".to_string()];
    let none: Vec<String> = vec![];

    assert!(has_allowed_extension("/a/readme.txt", &exts));
    assert!(has_allowed_extension("/a/README.TXT", &exts));
    assert!(!has_allowed_extension("/a/tool.exe", &exts));
    assert!(!has_allowed_extension("/a/noext", &exts));
    assert!(has_allowed_extension("/a/anything.bin", &none));

    assert!(has_denied_extension("/a/tool.exe", &vec!["exe".to_string()]));
    assert!(!has_denied_extension("/a/tool.exe", &none));
    assert!(!has_denied_extension("/a/noext", &vec!["exe".to_string()]));
}

#[test]
fn safe_join_stays_inside_base() {
    assert_eq!(safe_join("/srv", "a/b").unwrap(), "/srv/a/b");
    assert_eq!(safe_join("/srv", "/a/b").unwrap(), "/srv/a/b");
    assert_eq!(safe_join("/srv/", "a").unwrap(), "/srv/a");
    assert_eq!(safe_join("/srv", "a/../b").unwrap(), "/srv/b");
    assert!(safe_join("/srv", "../escape").is_none());
}

//! Validation of identifiers, paths and sizes, with exact bounds.

use vstd::prelude::*;

verus! {

/// Characters a node id may hold.
pub open spec fn node_id_char(c: char) -> bool {
    ('a' <= c && c <= 'z') || ('A' <= c && c <= 'Z') || ('0' <= c && c <= '9') || c == '-' || c
        == '_'
}

/// A node id is non-empty, at most 64 characters, and drawn from the
/// allowed alphabet.
pub open spec fn valid_node_id(s: Seq<char>) -> bool {
    &&& 1 <= s.len() <= 64
    &&& forall|i: int| 0 <= i < s.len() ==> node_id_char(#[trigger] s[i])
}

/// Characters a capability name may hold.
pub open spec fn capability_char(c: char) -> bool {
    node_id_char(c) || c == '.'
}

/// A capability is non-empty, at most 64 characters, from its alphabet.
pub open spec fn valid_capability(s: Seq<char>) -> bool {
    &&& 1 <= s.len() <= 64
    &&& forall|i: int| 0 <= i < s.len() ==> capability_char(#[trigger] s[i])
}

/// A file path is non-empty, at most 4096 characters, and free of NUL.
pub open spec fn valid_file_path(s: Seq<char>) -> bool {
    &&& 1 <= s.len() <= 4096
    &&& forall|i: int| 0 <= i < s.len() ==> #[trigger] s[i] != '\0'
}

fn is_node_id_char(c: char) -> (r: bool)
    ensures
        r == node_id_char(c),
{
    ('a' <= c && c <= 'z') || ('A' <= c && c <= 'Z') || ('0' <= c && c <= '9') || c == '-' || c
        == '_'
}

/// Check a node id: non-empty, at most 64 characters, `[A-Za-z0-9_-]`.
pub fn validate_node_id(id: &str) -> (r: bool)
    ensures
        r == valid_node_id(id@),
{
    let n = id.unicode_len();
    if n == 0 || n > 64 {
        return false;
    }
    let mut k: usize = 0;
    while k < n
        invariant
            k <= n,
            n == id@.len(),
            forall|i: int| 0 <= i < k ==> node_id_char(#[trigger] id@[i]),
        decreases n - k,
    {
        if !is_node_id_char(id.get_char(k)) {
            return false;
        }
        k = k + 1;
    }
    true
}

/// Check a capability name: non-empty, at most 64 characters,
/// `[A-Za-z0-9._-]`.
pub fn validate_capability(s: &str) -> (r: bool)
    ensures
        r == valid_capability(s@),
{
    let n = s.unicode_len();
    if n == 0 || n > 64 {
        return false;
    }
    let mut k: usize = 0;
    while k < n
        invariant
            k <= n,
            n == s@.len(),
            forall|i: int| 0 <= i < k ==> capability_char(#[trigger] s@[i]),
        decreases n - k,
    {
        let c = s.get_char(k);
        if !(is_node_id_char(c) || c == '.') {
            return false;
        }
        k = k + 1;
    }
    true
}

/// Check a file path: non-empty, at most 4096 characters, no NUL bytes.
pub fn validate_file_path(path: &str) -> (r: bool)
    ensures
        r == valid_file_path(path@),
{
    let n = path.unicode_len();
    if n == 0 || n > 4096 {
        return false;
    }
    let mut k: usize = 0;
    while k < n
        invariant
            k <= n,
            n == path@.len(),
            forall|i: int| 0 <= i < k ==> #[trigger] path@[i] != '\0',
        decreases n - k,
    {
        if path.get_char(k) == '\0' {
            return false;
        }
        k = k + 1;
    }
    true
}

/// Check a message size against a limit: accepted exactly when it does
/// not exceed the limit.
pub fn validate_message_size(size: usize, max_size: usize) -> (r: bool)
    ensures
        r == (size <= max_size),
{
    size <= max_size
}

/// A public key is exactly 32 bytes; anything else is rejected.
pub fn validate_public_key(key: &Vec<u8>) -> (r: bool)
    ensures
        r == (key@.len() == 32),
{
    key.len() == 32
}

/// All capabilities are valid and there are at most 20 of them.
pub open spec fn valid_capabilities(caps: Seq<Seq<char>>) -> bool {
    &&& caps.len() <= 20
    &&& forall|k: int| 0 <= k < caps.len() ==> valid_capability(#[trigger] caps[k])
}

/// Check a capability list: at most 20 entries, each valid.
pub fn validate_capabilities(caps: &Vec<String>) -> (r: bool)
    ensures
        r == valid_capabilities(crate::protocol::strings_view(*caps)),
{
    let ghost cv = crate::protocol::strings_view(*caps);
    if caps.len() > 20 {
        return false;
    }
    let mut k: usize = 0;
    while k < caps.len()
        invariant
            k <= caps@.len(),
            cv == crate::protocol::strings_view(*caps),
            cv.len() == caps@.len(),
            forall|j: int| 0 <= j < k ==> valid_capability(#[trigger] cv[j]),
        decreases caps@.len() - k,
    {
        if !validate_capability(caps[k].as_str()) {
            proof {
                assert(cv[k as int] == caps@[k as int]@);
            }
            return false;
        }
        k = k + 1;
    }
    true
}

} // verus!

//! Path and extension filters: whether a path falls under a list of
//! prefixes, whether its extension is allowed, and a join that keeps a
//! relative path inside its base.  An empty allow-list means no
//! restriction; a deny-list always rejects on a match.

use vstd::prelude::*;
use crate::paths::{matches_any_prefix, path_in_list, spec_normalize_path, normalize_path};
use crate::strutil::append_str;
use crate::access::{ext_of, in_list_folded, path_extension, string_in_list_folded};
use crate::protocol::strings_view;

verus! {

/// Whether the allow-list admits the path: an empty list admits every
/// path, otherwise the path must equal or lie under some entry.
pub fn is_path_allowed(path: &str, allowed_paths: &Vec<String>) -> (r: bool)
    ensures
        r == (strings_view(*allowed_paths).len() == 0 || matches_any_prefix(
            path@,
            strings_view(*allowed_paths),
        )),
{
    if allowed_paths.len() == 0 {
        true
    } else {
        path_in_list(path, allowed_paths)
    }
}

/// Whether the deny-list rejects the path: it does exactly when the
/// path equals or lies under some entry.
pub fn is_path_denied(path: &str, denied_paths: &Vec<String>) -> (r: bool)
    ensures
        r == matches_any_prefix(path@, strings_view(*denied_paths)),
{
    path_in_list(path, denied_paths)
}

/// Whether the extension allow-list admits the path: an empty list
/// admits every path; otherwise the path's lowercased extension must
/// equal some entry lowercased, and a path without one is refused.
pub fn has_allowed_extension(path: &str, allowed_extensions: &Vec<String>) -> (r: bool)
    ensures
        r == (strings_view(*allowed_extensions).len() == 0 || (match ext_of(path@) {
            Some(e) => in_list_folded(e, strings_view(*allowed_extensions)),
            None => false,
        })),
{
    if allowed_extensions.len() == 0 {
        return true;
    }
    match path_extension(path) {
        Some(e) => string_in_list_folded(&e, allowed_extensions),
        None => false,
    }
}

/// Whether the extension deny-list rejects the path: it does exactly
/// when the path's lowercased extension equals some entry lowercased.
pub fn has_denied_extension(path: &str, denied_extensions: &Vec<String>) -> (r: bool)
    ensures
        r == (match ext_of(path@) {
            Some(e) => in_list_folded(e, strings_view(*denied_extensions)),
            None => false,
        }),
{
    match path_extension(path) {
        Some(e) => string_in_list_folded(&e, denied_extensions),
        None => false,
    }
}

/// What joining a normalized relative path onto a base yields: the
/// normalized path loses its leading slash, and a separator stands
/// between the two parts unless one is not needed.
pub open spec fn spec_safe_join(base: Seq<char>, p: Seq<char>) -> Option<Seq<char>> {
    match spec_normalize_path(p) {
        None => None,
        Some(n) => {
            let rel = if n.len() > 0 && n[0] == '/' {
                n.skip(1)
            } else {
                n
            };
            if rel.len() == 0 {
                Some(base)
            } else if base.len() > 0 && base[base.len() - 1] == '/' {
                Some(base + rel)
            } else {
                Some(base + seq!['/'] + rel)
            }
        },
    }
}

/// The characters of `s` from `start` on.
fn substr_from(s: &String, start: usize) -> (r: String)
    requires
        start <= s@.len(),
    ensures
        r@ == s@.skip(start as int),
{
    let n = s.as_str().unicode_len();
    let mut out = String::new();
    let mut k: usize = start;
    while k < n
        invariant
            start <= k <= n,
            n == s@.len(),
            out@ == s@.subrange(start as int, k as int),
        decreases n - k,
    {
        let c = s.as_str().get_char(k);
        crate::strutil::push_char(&mut out, c);
        proof {
            assert(out@ =~= s@.subrange(start as int, k + 1 as int));
        }
        k = k + 1;
    }
    proof {
        assert(s@.subrange(start as int, n as int) =~= s@.skip(start as int));
    }
    out
}

/// Join a path onto a base after normalizing it; a path that traverses
/// above its root is refused, and the result never escapes the base.
pub fn safe_join(base: &str, path: &str) -> (r: Option<String>)
    ensures
        match r {
            Some(s) => spec_safe_join(base@, path@) == Some(s@),
            None => spec_safe_join(base@, path@) is None,
        },
{
    let n = match normalize_path(path) {
        None => {
            return None;
        },
        Some(n) => n,
    };
    let rel = if n.as_str().unicode_len() > 0 && n.as_str().get_char(0) == '/' {
        substr_from(&n, 1)
    } else {
        n
    };
    let bn = base.unicode_len();
    if rel.as_str().unicode_len() == 0 {
        let mut out = String::new();
        append_str(&mut out, base);
        proof {
            assert(out@ =~= base@);
        }
        Some(out)
    } else if bn > 0 && base.get_char(bn - 1) == '/' {
        let mut out = String::new();
        append_str(&mut out, base);
        append_str(&mut out, rel.as_str());
        proof {
            assert(out@ =~= base@ + rel@);
        }
        Some(out)
    } else {
        let mut out = String::new();
        append_str(&mut out, base);
        append_str(&mut out, "/");
        append_str(&mut out, rel.as_str());
        proof {
            reveal_strlit("/");
            assert(out@ =~= base@ + seq!['/'] + rel@);
        }
        Some(out)
    }
}

} // verus!

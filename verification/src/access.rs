//! Access control: a pure decision over the immutable policy and the
//! normalized request path.  Deny wins; read-only denies writes and
//! deletes only; the size cap is checked before any filesystem action.

use vstd::prelude::*;
use crate::paths::{matches_any_prefix, path_in_list};
use crate::protocol::strings_view;

verus! {

/// The agent's access policy: five lists, one size cap, one flag.
#[derive(Debug, Clone)]
pub struct AccessPolicy {
    pub allowed_paths: Vec<String>,
    pub read_only_paths: Vec<String>,
    pub denied_paths: Vec<String>,
    pub allowed_extensions: Vec<String>,
    pub denied_extensions: Vec<String>,
    pub max_file_size: u64,
    pub follow_symlinks: bool,
}

/// The kind of access a request asks for.
#[derive(Debug, Clone, Copy, PartialEq, Eq, Structural)]
pub enum AccessKind {
    Read,
    Write,
    Create,
    Delete,
}

/// Why access was denied, or that it was granted.
#[derive(Debug, Clone, Copy, PartialEq, Eq, Structural)]
pub enum AccessDecision {
    Granted,
    DeniedSymlink,
    DeniedPath,
    NotInAllowList,
    ReadOnlyPath,
    DeniedExtension,
    ExtensionNotAllowed,
}

/// ASCII lowercasing of one character.
pub open spec fn lower_char(c: char) -> char {
    if 'A' <= c && c <= 'Z' {
        ((c as u32) + 32) as char
    } else {
        c
    }
}

/// ASCII lowercasing of a character sequence.
pub open spec fn lower(s: Seq<char>) -> Seq<char> {
    Seq::new(s.len(), |i: int| lower_char(s[i]))
}

fn lower_char_exec(c: char) -> (r: char)
    ensures
        r == lower_char(c),
{
    if 'A' <= c && c <= 'Z' {
        proof {
            vstd::utf8::char_is_scalar(c);
            assert((c as u32) + 32 < 0xD800);
        }
        (((c as u32) + 32) as u8 as char)
    } else {
        c
    }
}

/// Position right after the last `.` of the path's final component, or
/// none when the component has no usable extension.
pub open spec fn ext_start(p: Seq<char>, i: int) -> Option<int>
    decreases i + 1,
{
    if i < 0 {
        None
    } else if p[i] == '/' {
        None
    } else if p[i] == '.' {
        if i == 0 || p[i - 1] == '/' {
            None
        } else {
            Some(i + 1)
        }
    } else {
        ext_start(p, i - 1)
    }
}

/// The path's extension, lowercased, when it has one.
pub open spec fn ext_of(p: Seq<char>) -> Option<Seq<char>> {
    match ext_start(p, p.len() - 1) {
        None => None,
        Some(j) => Some(lower(p.subrange(j, p.len() as int))),
    }
}

/// The extension of a path, lowercased; none for paths without one.
pub fn path_extension(p: &str) -> (r: Option<String>)
    ensures
        match r {
            Some(e) => ext_of(p@) == Some(e@),
            None => ext_of(p@) is None,
        },
{
    let n = p.unicode_len();
    if n == 0 {
        return None;
    }
    let mut i: usize = n;
    let mut found: Option<usize> = None;
    while i > 0 && found.is_none()
        invariant
            i <= n,
            n == p@.len(),
            found is None ==> ext_start(p@, n - 1) == ext_start(p@, i - 1),
            found matches Some(j) ==> ext_start(p@, n - 1) == Some(j as int) && 0 < j <= n,
        decreases (if found is Some { 0int } else { i as int + 1 }),
    {
        let c = p.get_char(i - 1);
        if c == '/' {
            proof {
                assert(ext_start(p@, i - 1) is None);
                assert(ext_of(p@) is None);
            }
            return None;
        }
        if c == '.' {
            if i == 1 {
                proof {
                    assert(p@[0] == '.');
                    assert(ext_start(p@, 0) is None);
                    assert(ext_of(p@) is None);
                }
                return None;
            }
            if p.get_char(i - 2) == '/' {
                proof {
                    assert(p@[i - 1] == '.' && p@[i - 2] == '/');
                    assert(ext_start(p@, i - 1) is None);
                    assert(ext_of(p@) is None);
                }
                return None;
            }
            found = Some(i);
            proof {
                assert(ext_start(p@, i - 1) == Some(i as int));
            }
        } else {
            i = i - 1;
        }
    }
    proof {
        if found is None {
            assert(ext_start(p@, -1) is None);
        }
    }
    match found {
        None => None,
        Some(j) => {
            let mut out = String::new();
            let mut k: usize = j;
            while k < n
                invariant
                    j <= k <= n,
                    n == p@.len(),
                    out@ == lower(p@.subrange(j as int, k as int)),
                decreases n - k,
            {
                crate::strutil::push_char(&mut out, lower_char_exec(p.get_char(k)));
                proof {
                    assert(lower(p@.subrange(j as int, k + 1 as int)) =~= lower(
                        p@.subrange(j as int, k as int),
                    ).push(lower_char(p@[k as int])));
                }
                k = k + 1;
            }
            Some(out)
        },
    }
}


/// Whether a string equals some entry of the list.
pub open spec fn in_list(s: Seq<char>, list: Seq<Seq<char>>) -> bool {
    exists|k: int| 0 <= k < list.len() && #[trigger] list[k] == s
}

/// Whether a lowercased string equals some entry of the list once that
/// entry is lowercased too: the case-insensitive membership test the
/// extension lists use.
pub open spec fn in_list_folded(s: Seq<char>, list: Seq<Seq<char>>) -> bool {
    exists|k: int| 0 <= k < list.len() && lower(#[trigger] list[k]) == s
}

/// ASCII-lowercase a whole string.
fn lower_string(s: &String) -> (r: String)
    ensures
        r@ == lower(s@),
{
    let n = s.as_str().unicode_len();
    let mut out = String::new();
    let mut k: usize = 0;
    while k < n
        invariant
            k <= n,
            n == s@.len(),
            out@ =~= lower(s@).take(k as int),
        decreases n - k,
    {
        let c = lower_char_exec(s.as_str().get_char(k));
        crate::strutil::push_char(&mut out, c);
        proof {
            assert(out@ =~= lower(s@).take(k + 1 as int));
        }
        k = k + 1;
    }
    proof {
        assert(lower(s@).take(n as int) =~= lower(s@));
    }
    out
}

/// Whether the string matches some entry of the list, entries compared
/// lowercased.
pub(crate) fn string_in_list_folded(s: &String, list: &Vec<String>) -> (r: bool)
    ensures
        r == in_list_folded(s@, strings_view(*list)),
{
    let ghost lv = strings_view(*list);
    let mut k: usize = 0;
    while k < list.len()
        invariant
            k <= list@.len(),
            lv == strings_view(*list),
            lv.len() == list@.len(),
            forall|j: int| 0 <= j < k ==> lower(#[trigger] lv[j]) != s@,
        decreases list@.len() - k,
    {
        let folded = lower_string(&list[k]);
        if str_eq(folded.as_str(), s.as_str()) {
            proof {
                assert(lower(lv[k as int]) == s@);
            }
            return true;
        }
        proof {
            assert(lower(lv[k as int]) != s@);
        }
        k = k + 1;
    }
    false
}

pub(crate) fn string_in_list(s: &String, list: &Vec<String>) -> (r: bool)
    ensures
        r == in_list(s@, strings_view(*list)),
{
    let ghost lv = strings_view(*list);
    let mut k: usize = 0;
    while k < list.len()
        invariant
            k <= list@.len(),
            lv == strings_view(*list),
            lv.len() == list@.len(),
            forall|j: int| 0 <= j < k ==> #[trigger] lv[j] != s@,
        decreases list@.len() - k,
    {
        if str_eq(list[k].as_str(), s.as_str()) {
            proof {
                assert(lv[k as int] == s@);
            }
            return true;
        }
        k = k + 1;
    }
    false
}

pub(crate) fn str_eq(a: &str, b: &str) -> (r: bool)
    ensures
        r == (a@ == b@),
{
    let na = a.unicode_len();
    let nb = b.unicode_len();
    if na != nb {
        return false;
    }
    let mut k: usize = 0;
    while k < na
        invariant
            k <= na,
            na == a@.len() == b@.len(),
            a@.take(k as int) == b@.take(k as int),
        decreases na - k,
    {
        if a.get_char(k) != b.get_char(k) {
            proof {
                assert(a@.take(na as int)[k as int] == a@[k as int]);
                assert(b@.take(na as int)[k as int] == b@[k as int]);
                assert(a@.take(na as int) =~= a@);
                assert(b@.take(na as int) =~= b@);
            }
            return false;
        }
        proof {
            assert(a@.take(k + 1 as int) =~= a@.take(k as int).push(a@[k as int]));
            assert(b@.take(k + 1 as int) =~= b@.take(k as int).push(b@[k as int]));
        }
        k = k + 1;
    }
    proof {
        assert(a@.take(na as int) =~= a@);
        assert(b@.take(na as int) =~= b@);
    }
    true
}

/// The policy's decision, at the specification level.  Evaluation order:
/// symlinks, deny list, allow list, read-only list, extensions.
pub open spec fn access_decision(
    denied: Seq<Seq<char>>,
    allowed: Seq<Seq<char>>,
    read_only: Seq<Seq<char>>,
    denied_exts: Seq<Seq<char>>,
    allowed_exts: Seq<Seq<char>>,
    follow_symlinks: bool,
    p: Seq<char>,
    kind: AccessKind,
    has_symlink: bool,
) -> AccessDecision {
    if !follow_symlinks && has_symlink {
        AccessDecision::DeniedSymlink
    } else if matches_any_prefix(p, denied) {
        AccessDecision::DeniedPath
    } else if allowed.len() > 0 && !matches_any_prefix(p, allowed) {
        AccessDecision::NotInAllowList
    } else if (kind == AccessKind::Write || kind == AccessKind::Delete) && matches_any_prefix(
        p,
        read_only,
    ) {
        AccessDecision::ReadOnlyPath
    } else {
        match ext_of(p) {
            None => AccessDecision::Granted,
            Some(e) => if denied_exts.len() > 0 && in_list_folded(e, denied_exts) {
                AccessDecision::DeniedExtension
            } else if allowed_exts.len() > 0 && !in_list_folded(e, allowed_exts) {
                AccessDecision::ExtensionNotAllowed
            } else {
                AccessDecision::Granted
            },
        }
    }
}

impl AccessPolicy {
    /// The policy's decision for one normalized path.  `has_symlink` says
    /// whether any component of the path is a symlink on disk, which
    /// only the caller can know.
    pub fn check_path(&self, path: &str, kind: AccessKind, has_symlink: bool) -> (r:
        AccessDecision)
        ensures
            r == access_decision(
                strings_view(self.denied_paths),
                strings_view(self.allowed_paths),
                strings_view(self.read_only_paths),
                strings_view(self.denied_extensions),
                strings_view(self.allowed_extensions),
                self.follow_symlinks,
                path@,
                kind,
                has_symlink,
            ),
    {
        if !self.follow_symlinks && has_symlink {
            return AccessDecision::DeniedSymlink;
        }
        if path_in_list(path, &self.denied_paths) {
            return AccessDecision::DeniedPath;
        }
        if self.allowed_paths.len() > 0 && !path_in_list(path, &self.allowed_paths) {
            return AccessDecision::NotInAllowList;
        }
        if (matches!(kind, AccessKind::Write) || matches!(kind, AccessKind::Delete))
            && path_in_list(path, &self.read_only_paths) {
            return AccessDecision::ReadOnlyPath;
        }
        match path_extension(path) {
            None => AccessDecision::Granted,
            Some(e) => {
                if self.denied_extensions.len() > 0 && string_in_list_folded(
                    &e,
                    &self.denied_extensions,
                ) {
                    AccessDecision::DeniedExtension
                } else if self.allowed_extensions.len() > 0 && !string_in_list_folded(
                    &e,
                    &self.allowed_extensions,
                ) {
                    AccessDecision::ExtensionNotAllowed
                } else {
                    AccessDecision::Granted
                }
            },
        }
    }

    /// The size cap: a write of `size` bytes is allowed exactly when it
    /// does not exceed the configured maximum.
    pub fn size_allowed(&self, size: u64) -> (r: bool)
        ensures
            r == (size <= self.max_file_size),
    {
        size <= self.max_file_size
    }
}

/// Deny wins: a path under a denied prefix is never granted, whatever
/// the other lists say.
pub proof fn lemma_deny_overrides(
    denied: Seq<Seq<char>>,
    allowed: Seq<Seq<char>>,
    read_only: Seq<Seq<char>>,
    denied_exts: Seq<Seq<char>>,
    allowed_exts: Seq<Seq<char>>,
    follow_symlinks: bool,
    p: Seq<char>,
    kind: AccessKind,
    has_symlink: bool,
)
    requires
        matches_any_prefix(p, denied),
    ensures
        access_decision(
            denied,
            allowed,
            read_only,
            denied_exts,
            allowed_exts,
            follow_symlinks,
            p,
            kind,
            has_symlink,
        ) != AccessDecision::Granted,
{
}

/// An empty allow list disables allow filtering, and an empty deny list
/// disables deny filtering: neither can then cause a denial.
pub proof fn lemma_empty_lists_filter_nothing(
    allowed: Seq<Seq<char>>,
    read_only: Seq<Seq<char>>,
    denied_exts: Seq<Seq<char>>,
    allowed_exts: Seq<Seq<char>>,
    follow_symlinks: bool,
    p: Seq<char>,
    kind: AccessKind,
    has_symlink: bool,
)
    ensures
        allowed.len() == 0 ==> access_decision(
            Seq::empty(),
            allowed,
            read_only,
            denied_exts,
            allowed_exts,
            follow_symlinks,
            p,
            kind,
            has_symlink,
        ) != AccessDecision::NotInAllowList,
        access_decision(
            Seq::empty(),
            allowed,
            read_only,
            denied_exts,
            allowed_exts,
            follow_symlinks,
            p,
            kind,
            has_symlink,
        ) != AccessDecision::DeniedPath,
{
}

/// Counters the access controller keeps.
#[derive(Debug, Clone, Copy)]
pub struct AccessControlStatistics {
    pub allowed_requests: u64,
    pub denied_requests: u64,
    pub path_violations: u64,
    pub size_violations: u64,
}

/// The access control manager: the immutable policy plus its counters.
#[derive(Debug, Clone)]
pub struct AccessControl {
    pub policy: AccessPolicy,
    pub stats: AccessControlStatistics,
}

impl AccessControl {
    /// Build the controller around a policy, with zeroed counters.
    pub fn new(policy: AccessPolicy) -> (r: AccessControl)
        ensures
            r.policy == policy,
            r.stats.allowed_requests == 0,
            r.stats.denied_requests == 0,
            r.stats.path_violations == 0,
            r.stats.size_violations == 0,
    {
        AccessControl {
            policy,
            stats: AccessControlStatistics {
                allowed_requests: 0,
                denied_requests: 0,
                path_violations: 0,
                size_violations: 0,
            },
        }
    }

    /// Decide one request and update the counters: allowed
    /// requests on a grant, denied requests and path violations on a
    /// path-shaped denial.
    pub fn check_access(&mut self, path: &str, kind: AccessKind, has_symlink: bool) -> (r:
        AccessDecision)
        requires
            old(self).stats.allowed_requests < u64::MAX,
            old(self).stats.denied_requests < u64::MAX,
            old(self).stats.path_violations < u64::MAX,
        ensures
            final(self).policy == old(self).policy,
            r == access_decision(
                strings_view(old(self).policy.denied_paths),
                strings_view(old(self).policy.allowed_paths),
                strings_view(old(self).policy.read_only_paths),
                strings_view(old(self).policy.denied_extensions),
                strings_view(old(self).policy.allowed_extensions),
                old(self).policy.follow_symlinks,
                path@,
                kind,
                has_symlink,
            ),
            final(self).stats.allowed_requests == old(self).stats.allowed_requests + (if r
                == AccessDecision::Granted {
                1int
            } else {
                0int
            }),
            final(self).stats.denied_requests == old(self).stats.denied_requests + (if r
                != AccessDecision::Granted {
                1int
            } else {
                0int
            }),
            final(self).stats.path_violations == old(self).stats.path_violations + (if r
                == AccessDecision::DeniedPath || r == AccessDecision::NotInAllowList {
                1int
            } else {
                0int
            }),
            final(self).stats.size_violations == old(self).stats.size_violations,
    {
        let d = self.policy.check_path(path, kind, has_symlink);
        if matches!(d, AccessDecision::Granted) {
            self.stats.allowed_requests = self.stats.allowed_requests + 1;
        } else {
            self.stats.denied_requests = self.stats.denied_requests + 1;
            if matches!(d, AccessDecision::DeniedPath) || matches!(
                d,
                AccessDecision::NotInAllowList,
            ) {
                self.stats.path_violations = self.stats.path_violations + 1;
            }
        }
        d
    }

    /// Check a projected file size against the cap, counting a size
    /// violation on refusal.  The check happens before any filesystem
    /// action: a caller consults the returned decision first.
    pub fn check_file_size(&mut self, size: u64) -> (r: bool)
        requires
            old(self).stats.denied_requests < u64::MAX,
            old(self).stats.size_violations < u64::MAX,
        ensures
            final(self).policy == old(self).policy,
            r == (size <= old(self).policy.max_file_size),
            !r ==> final(self).stats.size_violations == old(self).stats.size_violations + 1
                && final(self).stats.denied_requests == old(self).stats.denied_requests + 1
                && final(self).stats.allowed_requests == old(self).stats.allowed_requests
                && final(self).stats.path_violations == old(self).stats.path_violations,
            r ==> final(self).stats == old(self).stats,
    {
        if size > self.policy.max_file_size {
            self.stats.size_violations = self.stats.size_violations + 1;
            self.stats.denied_requests = self.stats.denied_requests + 1;
            false
        } else {
            true
        }
    }

    /// The whole gate for one raw request path, as the agent runs it:
    /// syntactic validation, lexical normalization, then the policy.
    /// A path that is syntactically invalid or traverses above its
    /// root counts as a path-shaped denial; otherwise the decision and
    /// counters are exactly those of `check_access` on the normalized
    /// path, which is returned for the filesystem action.
    pub fn check_raw_path(&mut self, raw: &str, kind: AccessKind, has_symlink: bool) -> (r: (
        AccessDecision,
        Option<String>,
    ))
        requires
            old(self).stats.allowed_requests < u64::MAX,
            old(self).stats.denied_requests < u64::MAX,
            old(self).stats.path_violations < u64::MAX,
        ensures
            final(self).policy == old(self).policy,
            final(self).stats.size_violations == old(self).stats.size_violations,
            !crate::validation::valid_file_path(raw@) || crate::paths::spec_normalize_path(raw@)
                is None ==> r.0 == AccessDecision::DeniedPath && r.1 is None,
            crate::validation::valid_file_path(raw@) && crate::paths::spec_normalize_path(raw@)
                is Some ==> ({
                let n = crate::paths::spec_normalize_path(raw@).unwrap();
                r.0 == access_decision(
                    strings_view(old(self).policy.denied_paths),
                    strings_view(old(self).policy.allowed_paths),
                    strings_view(old(self).policy.read_only_paths),
                    strings_view(old(self).policy.denied_extensions),
                    strings_view(old(self).policy.allowed_extensions),
                    old(self).policy.follow_symlinks,
                    n,
                    kind,
                    has_symlink,
                ) && (r.1 matches Some(s) && s@ == n)
            }),
            final(self).stats.allowed_requests == old(self).stats.allowed_requests + (if r.0
                == AccessDecision::Granted {
                1int
            } else {
                0int
            }),
            final(self).stats.denied_requests == old(self).stats.denied_requests + (if r.0
                != AccessDecision::Granted {
                1int
            } else {
                0int
            }),
            final(self).stats.path_violations == old(self).stats.path_violations + (if r.0
                == AccessDecision::DeniedPath || r.0 == AccessDecision::NotInAllowList {
                1int
            } else {
                0int
            }),
    {
        if !crate::validation::validate_file_path(raw) {
            self.stats.denied_requests = self.stats.denied_requests + 1;
            self.stats.path_violations = self.stats.path_violations + 1;
            return (AccessDecision::DeniedPath, None);
        }
        match crate::paths::normalize_path(raw) {
            None => {
                self.stats.denied_requests = self.stats.denied_requests + 1;
                self.stats.path_violations = self.stats.path_violations + 1;
                (AccessDecision::DeniedPath, None)
            },
            Some(n) => {
                let d = self.check_access(n.as_str(), kind, has_symlink);
                (d, Some(n))
            },
        }
    }

    /// The counters as they stand.
    pub fn get_statistics(&self) -> (r: AccessControlStatistics)
        ensures
            r == self.stats,
    {
        self.stats
    }
}

} // verus!

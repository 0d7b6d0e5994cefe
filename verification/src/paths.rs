//! Path handling: lexical normalization and prefix checks, over the
//! character sequences of path strings.

use vstd::prelude::*;

verus! {

/// One path component: the characters between separators.
pub open spec fn split_path(p: Seq<char>) -> Seq<Seq<char>>
    decreases p.len(),
{
    if p.len() == 0 {
        seq![Seq::empty()]
    } else if p.last() == '/' {
        split_path(p.drop_last()).push(Seq::empty())
    } else {
        let rest = split_path(p.drop_last());
        rest.update(rest.len() - 1, rest.last().push(p.last()))
    }
}

/// `pre` is a path prefix of `p`: equal, or a leading directory.
pub open spec fn is_path_prefix(p: Seq<char>, pre: Seq<char>) -> bool {
    &&& pre.len() <= p.len()
    &&& p.take(pre.len() as int) == pre
    &&& (p.len() == pre.len() || p[pre.len() as int] == '/' || (pre.len() > 0 && pre.last()
        == '/'))
}

/// Whether `c` is a character prefix of `p`.
pub fn str_has_prefix(p: &str, pre: &str) -> (r: bool)
    ensures
        r == (pre@.len() <= p@.len() && p@.take(pre@.len() as int) == pre@),
{
    let np = p.unicode_len();
    let nq = pre.unicode_len();
    if nq > np {
        proof {
            assert(!(pre@.len() <= p@.len()));
        }
        return false;
    }
    let mut k: usize = 0;
    while k < nq
        invariant
            k <= nq,
            nq == pre@.len() <= p@.len() == np,
            p@.take(k as int) == pre@.take(k as int),
        decreases nq - k,
    {
        if p.get_char(k) != pre.get_char(k) {
            proof {
                assert(p@.take(nq as int)[k as int] == p@[k as int]);
                assert(pre@.take(nq as int)[k as int] == pre@[k as int]);
                assert(pre@.take(nq as int) =~= pre@);
            }
            return false;
        }
        proof {
            assert(p@.take(k + 1 as int) =~= p@.take(k as int).push(p@[k as int]));
            assert(pre@.take(k + 1 as int) =~= pre@.take(k as int).push(pre@[k as int]));
        }
        k = k + 1;
    }
    proof {
        assert(pre@.take(nq as int) =~= pre@);
    }
    true
}

/// Whether the path `p` equals the prefix or lies under it.
pub fn path_starts_with(p: &str, pre: &str) -> (r: bool)
    ensures
        r == is_path_prefix(p@, pre@),
{
    let np = p.unicode_len();
    let nq = pre.unicode_len();
    if !str_has_prefix(p, pre) {
        return false;
    }
    if np == nq {
        return true;
    }
    if nq > 0 && pre.get_char(nq - 1) == '/' {
        proof {
            assert(pre@.last() == pre@[nq - 1]);
        }
        return true;
    }
    let r = p.get_char(nq);
    r == '/'
}

/// The path matches some entry of the list: it equals the entry or lies
/// under it.
pub open spec fn matches_any_prefix(p: Seq<char>, list: Seq<Seq<char>>) -> bool {
    exists|k: int| 0 <= k < list.len() && is_path_prefix(p, #[trigger] list[k])
}

/// Whether `p` equals or lies under any entry of `list`.
pub fn path_in_list(p: &str, list: &Vec<String>) -> (r: bool)
    ensures
        r == matches_any_prefix(p@, crate::protocol::strings_view(*list)),
{
    let ghost lv = crate::protocol::strings_view(*list);
    let mut k: usize = 0;
    while k < list.len()
        invariant
            k <= list@.len(),
            lv == crate::protocol::strings_view(*list),
            lv.len() == list@.len(),
            forall|j: int| 0 <= j < k ==> !is_path_prefix(p@, #[trigger] lv[j]),
        decreases list@.len() - k,
    {
        if path_starts_with(p, list[k].as_str()) {
            proof {
                assert(is_path_prefix(p@, lv[k as int]));
            }
            return true;
        }
        k = k + 1;
    }
    false
}

} // verus!

verus! {

/// Lexical cleaning of a component list: `.` and empty components drop,
/// `..` pops the previous component and is ignored at the root.
pub open spec fn clean_comps(cs: Seq<Seq<char>>) -> Seq<Seq<char>>
    decreases cs.len(),
{
    if cs.len() == 0 {
        Seq::empty()
    } else {
        let r = clean_comps(cs.drop_last());
        let c = cs.last();
        if c == Seq::<char>::empty() || c == "."@ {
            r
        } else if c == ".."@ {
            if r.len() > 0 {
                r.drop_last()
            } else {
                r
            }
        } else {
            r.push(c)
        }
    }
}

/// Like `clean_comps`, but `..` at the root is an error.
pub open spec fn strict_clean_comps(cs: Seq<Seq<char>>) -> Option<Seq<Seq<char>>>
    decreases cs.len(),
{
    if cs.len() == 0 {
        Some(Seq::empty())
    } else {
        match strict_clean_comps(cs.drop_last()) {
            None => None,
            Some(r) => {
                let c = cs.last();
                if c == Seq::<char>::empty() || c == "."@ {
                    Some(r)
                } else if c == ".."@ {
                    if r.len() > 0 {
                        Some(r.drop_last())
                    } else {
                        None
                    }
                } else {
                    Some(r.push(c))
                }
            },
        }
    }
}

/// Components joined with `/` separators, with a leading `/` when the
/// path is absolute.
pub open spec fn join_comps(cs: Seq<Seq<char>>, absolute: bool) -> Seq<char>
    decreases cs.len(),
{
    if cs.len() == 0 {
        if absolute {
            "/"@
        } else {
            Seq::empty()
        }
    } else if cs.len() == 1 {
        if absolute {
            seq!['/'] + cs[0]
        } else {
            cs[0]
        }
    } else {
        join_comps(cs.drop_last(), absolute) + seq!['/'] + cs.last()
    }
}


fn split_exec(p: &str) -> (r: Vec<String>)
    ensures
        crate::protocol::strings_view(r) == split_path(p@),
{
    let n = p.unicode_len();
    let mut comps: Vec<String> = Vec::new();
    comps.push(String::new());
    proof {
        assert(p@.take(0) =~= Seq::<char>::empty());
        assert(crate::protocol::strings_view(comps) =~= split_path(p@.take(0)));
    }
    let mut k: usize = 0;
    while k < n
        invariant
            k <= n,
            n == p@.len(),
            comps@.len() >= 1,
            crate::protocol::strings_view(comps) == split_path(p@.take(k as int)),
        decreases n - k,
    {
        let ghost prev = crate::protocol::strings_view(comps);
        let c = p.get_char(k);
        if c == '/' {
            comps.push(String::new());
            proof {
                assert(crate::protocol::strings_view(comps) =~= prev.push(Seq::<char>::empty()));
            }
        } else {
            let mut last = comps.pop().unwrap();
            crate::strutil::push_char(&mut last, c);
            comps.push(last);
            proof {
                assert(crate::protocol::strings_view(comps) =~= prev.update(
                    prev.len() - 1,
                    prev.last().push(p@[k as int]),
                ));
            }
        }
        proof {
            assert(p@.take(k + 1 as int).drop_last() =~= p@.take(k as int));
            assert(p@.take(k + 1 as int).last() == p@[k as int]);
        }
        k = k + 1;
    }
    proof {
        assert(p@.take(n as int) =~= p@);
    }
    comps
}

fn str_eq_dot(s: &String) -> (r: bool)
    ensures
        r == (s@ == "."@),
{
    let n = s.as_str().unicode_len();
    if n != 1 {
        proof {
            reveal_strlit(".");
        }
        return false;
    }
    proof {
        reveal_strlit(".");
    }
    let c = s.as_str().get_char(0);
    let r = c == '.';
    proof {
        if r {
            assert(s@ =~= "."@);
        }
    }
    r
}

fn str_eq_dotdot(s: &String) -> (r: bool)
    ensures
        r == (s@ == ".."@),
{
    let n = s.as_str().unicode_len();
    if n != 2 {
        proof {
            reveal_strlit("..");
        }
        return false;
    }
    proof {
        reveal_strlit("..");
    }
    let c0 = s.as_str().get_char(0);
    let c1 = s.as_str().get_char(1);
    let r = c0 == '.' && c1 == '.';
    proof {
        if r {
            assert(s@ =~= ".."@);
        }
    }
    r
}

fn clean_exec(comps: &Vec<String>) -> (r: Vec<String>)
    ensures
        crate::protocol::strings_view(r) == clean_comps(crate::protocol::strings_view(*comps)),
{
    let ghost cv = crate::protocol::strings_view(*comps);
    let mut acc: Vec<String> = Vec::new();
    proof {
        assert(cv.take(0) =~= Seq::<Seq<char>>::empty());
        assert(crate::protocol::strings_view(acc) =~= clean_comps(cv.take(0)));
    }
    let mut k: usize = 0;
    while k < comps.len()
        invariant
            k <= comps@.len(),
            cv == crate::protocol::strings_view(*comps),
            cv.len() == comps@.len(),
            crate::protocol::strings_view(acc) == clean_comps(cv.take(k as int)),
        decreases comps@.len() - k,
    {
        let ghost prev = crate::protocol::strings_view(acc);
        let c = &comps[k];
        if c.as_str().unicode_len() == 0 || str_eq_dot(c) {
            proof {
                assert(cv[k as int] == Seq::<char>::empty() || cv[k as int] == "."@);
            }
        } else if str_eq_dotdot(c) {
            if acc.len() > 0 {
                acc.pop();
                proof {
                    assert(crate::protocol::strings_view(acc) =~= prev.drop_last());
                }
            }
        } else {
            let copy = crate::strutil::clone_string(c);
            acc.push(copy);
            proof {
                assert(crate::protocol::strings_view(acc) =~= prev.push(cv[k as int]));
            }
        }
        proof {
            assert(cv.take(k + 1 as int).drop_last() =~= cv.take(k as int));
            assert(cv.take(k + 1 as int).last() == cv[k as int]);
        }
        k = k + 1;
    }
    proof {
        assert(cv.take(cv.len() as int) =~= cv);
    }
    acc
}


fn join_exec(comps: &Vec<String>, absolute: bool) -> (r: String)
    ensures
        r@ == join_comps(crate::protocol::strings_view(*comps), absolute),
{
    let ghost cv = crate::protocol::strings_view(*comps);
    let mut out = String::new();
    if absolute {
        crate::strutil::push_char(&mut out, '/');
    }
    if comps.len() == 0 {
        proof {
            reveal_strlit("/");
            if absolute {
                assert(out@ =~= "/"@);
            }
        }
        return out;
    }
    let mut k: usize = 0;
    while k < comps.len()
        invariant
            k <= comps@.len(),
            comps@.len() >= 1,
            cv == crate::protocol::strings_view(*comps),
            cv.len() == comps@.len(),
            k == 0 ==> out@ == (if absolute {
                seq!['/']
            } else {
                Seq::<char>::empty()
            }),
            k >= 1 ==> out@ == join_comps(cv.take(k as int), absolute),
        decreases comps@.len() - k,
    {
        if k > 0 {
            crate::strutil::push_char(&mut out, '/');
        }
        crate::strutil::append_str(&mut out, comps[k].as_str());
        proof {
            assert(cv.take(k + 1 as int).drop_last() =~= cv.take(k as int));
            assert(cv.take(k + 1 as int).last() == cv[k as int]);
            if k == 0 {
                assert(cv.take(1)[0] == cv[0]);
                if absolute {
                    assert(out@ =~= seq!['/'] + cv[0]);
                } else {
                    assert(out@ =~= cv[0]);
                }
            }
        }
        k = k + 1;
    }
    proof {
        assert(cv.take(cv.len() as int) =~= cv);
    }
    out
}


/// What lexical cleaning makes of a whole path.
pub open spec fn spec_clean_path(p: Seq<char>) -> Seq<char> {
    join_comps(clean_comps(split_path(p)), p.len() > 0 && p[0] == '/')
}

/// What strict normalization makes of a whole path: traversal above the
/// root is refused.
pub open spec fn spec_normalize_path(p: Seq<char>) -> Option<Seq<char>> {
    match strict_clean_comps(split_path(p)) {
        None => None,
        Some(cs) => Some(join_comps(cs, p.len() > 0 && p[0] == '/')),
    }
}

/// Clean a path lexically: `.` and empty components drop, `..` pops one
/// component and never climbs above the root.
pub fn clean_path(path: &str) -> (r: String)
    ensures
        r@ == spec_clean_path(path@),
{
    let absolute = path.unicode_len() > 0 && path.get_char(0) == '/';
    let comps = split_exec(path);
    let cleaned = clean_exec(&comps);
    join_exec(&cleaned, absolute)
}

fn strict_clean_exec(comps: &Vec<String>) -> (r: Option<Vec<String>>)
    ensures
        match r {
            Some(v) => strict_clean_comps(crate::protocol::strings_view(*comps)) == Some(
                crate::protocol::strings_view(v),
            ),
            None => strict_clean_comps(crate::protocol::strings_view(*comps)) is None,
        },
{
    let ghost cv = crate::protocol::strings_view(*comps);
    let mut acc: Vec<String> = Vec::new();
    proof {
        assert(cv.take(0) =~= Seq::<Seq<char>>::empty());
        assert(strict_clean_comps(cv.take(0)) == Some(crate::protocol::strings_view(acc)));
        assert(crate::protocol::strings_view(acc) =~= Seq::<Seq<char>>::empty());
    }
    let mut k: usize = 0;
    while k < comps.len()
        invariant
            k <= comps@.len(),
            cv == crate::protocol::strings_view(*comps),
            cv.len() == comps@.len(),
            strict_clean_comps(cv.take(k as int)) == Some(crate::protocol::strings_view(acc)),
        decreases comps@.len() - k,
    {
        let ghost prev = crate::protocol::strings_view(acc);
        let c = &comps[k];
        proof {
            assert(cv.take(k + 1 as int).drop_last() =~= cv.take(k as int));
            assert(cv.take(k + 1 as int).last() == cv[k as int]);
        }
        if c.as_str().unicode_len() == 0 || str_eq_dot(c) {
            proof {
                if c@.len() == 0 {
                    assert(cv[k as int] =~= Seq::<char>::empty());
                }
            }
        } else if str_eq_dotdot(c) {
            if acc.len() > 0 {
                acc.pop();
                proof {
                    assert(crate::protocol::strings_view(acc) =~= prev.drop_last());
                }
            } else {
                proof {
                    let ghost kk = k as int;
                    assert(strict_clean_comps(cv.take(kk + 1)) is None);
                    lemma_strict_clean_none(cv, kk + 1);
                }
                return None;
            }
        } else {
            let copy = crate::strutil::clone_string(c);
            acc.push(copy);
            proof {
                assert(crate::protocol::strings_view(acc) =~= prev.push(cv[k as int]));
            }
        }
        k = k + 1;
    }
    proof {
        assert(cv.take(cv.len() as int) =~= cv);
    }
    Some(acc)
}

/// Once strict cleaning fails on a prefix, it fails on the whole list.
proof fn lemma_strict_clean_none(cs: Seq<Seq<char>>, k: int)
    requires
        0 <= k <= cs.len(),
        strict_clean_comps(cs.take(k)) is None,
    ensures
        strict_clean_comps(cs) is None,
    decreases cs.len() - k,
{
    if k < cs.len() {
        assert(cs.take(k + 1).drop_last() =~= cs.take(k));
        lemma_strict_clean_none(cs, k + 1);
    } else {
        assert(cs.take(k) =~= cs);
    }
}

/// Normalize a path to prevent directory traversal: `.` drops, `..`
/// pops a component, and traversal above the root is an error.
pub fn normalize_path(path: &str) -> (r: Option<String>)
    ensures
        match r {
            Some(s) => spec_normalize_path(path@) == Some(s@),
            None => spec_normalize_path(path@) is None,
        },
{
    let absolute = path.unicode_len() > 0 && path.get_char(0) == '/';
    let comps = split_exec(path);
    match strict_clean_exec(&comps) {
        None => None,
        Some(cleaned) => Some(join_exec(&cleaned, absolute)),
    }
}

} // verus!

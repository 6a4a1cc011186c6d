//! Paths as text: a directory joined with a path taken relative to it.
use vstd::prelude::*;
use vstd::string::*;

verus! {

/// A path without the slashes it starts with.
pub open spec fn strip_root(p: Seq<char>) -> Seq<char>
    decreases p.len(),
{
    if p.len() > 0 && p[0] == '/' {
        strip_root(p.drop_first())
    } else {
        p
    }
}

/// `rel` joined below `dir`, with one slash between them.
pub open spec fn join_path(dir: Seq<char>, rel: Seq<char>) -> Seq<char> {
    if dir.len() == 0 {
        rel
    } else if dir.last() == '/' {
        dir + rel
    } else {
        dir + seq!['/'] + rel
    }
}

proof fn lemma_strip_root_from(p: Seq<char>, k: int)
    requires
        0 <= k <= p.len(),
        forall|i: int| 0 <= i < k ==> p[i] == '/',
    ensures
        strip_root(p) == strip_root(p.subrange(k, p.len() as int)),
    decreases k,
{
    if k > 0 {
        assert(p.drop_first().subrange(k - 1, p.drop_first().len() as int) =~= p.subrange(k, p.len() as int));
        lemma_strip_root_from(p.drop_first(), k - 1);
    } else {
        assert(p.subrange(0, p.len() as int) =~= p);
    }
}

/// The path below `dir` that `path` names, whether or not it starts with a slash.
pub fn path_below(dir: &str, path: &str) -> (r: String)
    ensures
        r@ == join_path(dir@, strip_root(path@)),
{
    let n = path.unicode_len();
    let mut k: usize = 0;
    while k < n && path.get_char(k) == '/'
        invariant
            k <= n,
            n == path@.len(),
            forall|i: int| 0 <= i < k ==> path@[i] == '/',
        decreases n - k,
    {
        k = k + 1;
    }
    proof {
        lemma_strip_root_from(path@, k as int);
    }
    let rel = path.substring_char(k, n);
    let d = dir.unicode_len();
    if d == 0 {
        return String::from_str(rel);
    }
    let base = String::from_str(dir);
    if dir.get_char(d - 1) == '/' {
        base.concat(rel)
    } else {
        proof {
            reveal_strlit("/");
        }
        let with_slash = base.concat("/");
        with_slash.concat(rel)
    }
}

/// `p` taken from `dir`: itself where it starts at the root, else joined below `dir`.
pub open spec fn resolve_path(dir: Seq<char>, p: Seq<char>) -> Seq<char> {
    if p.len() > 0 && p[0] == '/' {
        p
    } else {
        join_path(dir, p)
    }
}

/// Takes `p` from `dir`, as a path in a file is taken from the file's directory.
pub fn resolve_from(dir: &str, p: &str) -> (r: String)
    ensures
        r@ == resolve_path(dir@, p@),
{
    let n = p.unicode_len();
    if n > 0 && p.get_char(0) == '/' {
        String::from_str(p)
    } else {
        proof {
            assert(strip_root(p@) == p@);
        }
        path_below(dir, p)
    }
}

} // verus!

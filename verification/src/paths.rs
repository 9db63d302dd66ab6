//! Paths as text: what is absolute, how a relative path is anchored, and the
//! chain of directories above a path.

use vstd::prelude::*;
use crate::text::{chars_of, option_view, slice, string_of};

verus! {

/// Whether `p` starts at the filesystem root.
pub open spec fn is_absolute(p: Seq<char>) -> bool {
    p.len() > 0 && p[0] == '/'
}

/// `p` anchored at `root`: an absolute path stays as it is, the empty path and
/// `.` name `root` itself, and any other path is appended to `root` with one
/// slash between them.
pub open spec fn resolve(root: Seq<char>, p: Seq<char>) -> Seq<char> {
    if is_absolute(p) {
        p
    } else if p.len() == 0 || p == seq!['.'] {
        root
    } else if root.len() > 0 && root.last() == '/' {
        root + p
    } else {
        root + seq!['/'] + p
    }
}

/// The greatest index below `j` that holds a slash, or -1.
pub open spec fn last_slash(p: Seq<char>, j: int) -> int
    decreases j,
{
    if j <= 0 || j > p.len() {
        -1
    } else if p[j - 1] == '/' {
        j - 1
    } else {
        last_slash(p, j - 1)
    }
}

/// The directory that holds `p`: what stands before its last slash, the root
/// for a name directly under the root, and nothing for the root itself or for
/// a path without a slash.
pub open spec fn parent(p: Seq<char>) -> Option<Seq<char>> {
    let k = last_slash(p, p.len() as int);
    if k < 0 {
        None
    } else if k == 0 {
        if p.len() == 1 {
            None
        } else {
            Some(seq!['/'])
        }
    } else {
        Some(p.take(k))
    }
}

/// `p`, its parent, the parent of that, and so on up to a path without parent.
pub open spec fn ancestors(p: Seq<char>) -> Seq<Seq<char>>
    decreases p.len(),
    via ancestors_decreases
{
    match parent(p) {
        Some(q) => seq![p] + ancestors(q),
        None => seq![p],
    }
}

#[via_fn]
proof fn ancestors_decreases(p: Seq<char>) {
    lemma_parent_shorter(p);
}

pub proof fn lemma_last_slash_bounds(p: Seq<char>, j: int)
    requires
        0 <= j <= p.len(),
    ensures
        -1 <= last_slash(p, j) < j,
        last_slash(p, j) >= 0 ==> p[last_slash(p, j)] == '/',
        forall|k: int| last_slash(p, j) < k < j ==> #[trigger] p[k] != '/',
    decreases j,
{
    if j > 0 && p[j - 1] != '/' {
        lemma_last_slash_bounds(p, j - 1);
    }
}

/// A parent is strictly shorter than its child, so walking up ends.
pub proof fn lemma_parent_shorter(p: Seq<char>)
    ensures
        parent(p) matches Some(q) ==> q.len() < p.len(),
{
    lemma_last_slash_bounds(p, p.len() as int);
}

/// An absolute path has an absolute parent, if it has one.
pub proof fn lemma_parent_absolute(p: Seq<char>)
    requires
        is_absolute(p),
    ensures
        parent(p) matches Some(q) ==> is_absolute(q),
{
    lemma_last_slash_bounds(p, p.len() as int);
}

/// Anchored at an absolute root, every path is absolute.
pub proof fn lemma_resolve_absolute(root: Seq<char>, p: Seq<char>)
    requires
        is_absolute(root),
    ensures
        is_absolute(resolve(root, p)),
{
}

pub fn absolute(p: &Vec<char>) -> (r: bool)
    ensures
        r == is_absolute(p@),
{
    p.len() > 0 && p[0] == '/'
}

/// `p` anchored at `root`.
pub fn resolve_path(root: &str, p: &str) -> (out: String)
    ensures
        out@ == resolve(root@, p@),
{
    let r = chars_of(root);
    let v = chars_of(p);
    if absolute(&v) {
        return string_of(&v);
    }
    if v.len() == 0 || (v.len() == 1 && v[0] == '.') {
        assert(v.len() == 1 && v[0] == '.' ==> v@ =~= seq!['.']);
        return string_of(&r);
    }
    let mut out = r;
    if !(out.len() > 0 && out[out.len() - 1] == '/') {
        out.push('/');
    }
    let mut i: usize = 0;
    let ghost base = out@;
    while i < v.len()
        invariant
            i <= v.len(),
            out@ == base + v@.take(i as int),
        decreases v.len() - i,
    {
        out.push(v[i]);
        assert(base + v@.take(i + 1) =~= (base + v@.take(i as int)).push(v@[i as int]));
        i += 1;
    }
    assert(v@.take(v.len() as int) =~= v@);
    assert(base =~= if root@.len() > 0 && root@.last() == '/' {
        root@
    } else {
        root@ + seq!['/']
    });
    string_of(&out)
}

/// The directory that holds `p`, if there is one.
pub fn parent_of(p: &str) -> (out: Option<String>)
    ensures
        option_view(out) == parent(p@),
{
    let v = chars_of(p);
    let mut j: usize = v.len();
    while j > 0 && v[j - 1] != '/'
        invariant
            j <= v.len(),
            last_slash(v@, v.len() as int) == last_slash(v@, j as int),
        decreases j,
    {
        j -= 1;
    }
    if j == 0 {
        None
    } else if j == 1 {
        if v.len() == 1 {
            None
        } else {
            let root = slice(&v, 0, 1);
            assert(root@ =~= seq!['/']);
            Some(string_of(&root))
        }
    } else {
        let head = slice(&v, 0, j - 1);
        Some(string_of(&head))
    }
}

} // verus!

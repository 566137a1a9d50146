//! Keys of the remote store and paths of the local tree.
//!
//! A key is the path of a file relative to the mirrored root, written with
//! forward slashes. A local path is the root, one slash, and the key.

use vstd::prelude::*;

verus! {

/// The root as a directory prefix: the root itself when it already ends in a
/// slash, otherwise the root followed by one.
pub open spec fn root_prefix(root: Seq<char>) -> Seq<char> {
    if root.len() > 0 && root.last() == '/' {
        root
    } else {
        root.push('/')
    }
}

/// The key of `path` below `root`, if `path` lies below it.
pub open spec fn relative_key(root: Seq<char>, path: Seq<char>) -> Option<Seq<char>> {
    let p = root_prefix(root);
    if p.len() <= path.len() && path.subrange(0, p.len() as int) == p {
        Some(path.subrange(p.len() as int, path.len() as int))
    } else {
        None
    }
}

/// The local path of the object stored under `key`.
pub open spec fn local_path(root: Seq<char>, key: Seq<char>) -> Seq<char> {
    root_prefix(root) + key
}

/// The parts of a path written one after the other, a slash between each two.
pub open spec fn joined(parts: Seq<Seq<char>>) -> Seq<char>
    decreases parts.len(),
{
    if parts.len() == 0 {
        Seq::empty()
    } else if parts.len() == 1 {
        parts[0]
    } else {
        joined(parts.drop_last()) + seq!['/'] + parts.last()
    }
}

/// The views of a list of strings.
pub open spec fn views(v: Seq<String>) -> Seq<Seq<char>> {
    v.map_values(|s: String| s@)
}

fn prefix_of_root(root: &str) -> (r: String)
    ensures
        r@ == root_prefix(root@),
{
    let n = root.unicode_len();
    let mut r = String::from_str(root);
    if n > 0 && root.get_char(n - 1) == '/' {
        r
    } else {
        proof {
            reveal_strlit("/");
        }
        r.append("/");
        r
    }
}

/// Whether `p` is a prefix of `s`.
pub fn starts_with(s: &str, p: &str) -> (r: bool)
    ensures
        r == (p@.len() <= s@.len() && s@.subrange(0, p@.len() as int) == p@),
{
    let n = s.unicode_len();
    let m = p.unicode_len();
    if m > n {
        return false;
    }
    let mut i: usize = 0;
    while i < m
        invariant
            m == p@.len(),
            n == s@.len(),
            m <= n,
            i <= m,
            forall|j: int| 0 <= j < i ==> s@[j] == p@[j],
        decreases m - i,
    {
        if s.get_char(i) != p.get_char(i) {
            assert(s@.subrange(0, m as int)[i as int] != p@[i as int]);
            return false;
        }
        i = i + 1;
    }
    assert(s@.subrange(0, m as int) =~= p@);
    true
}

/// The key of a local `path` below the mirrored `root`; `None` when the path
/// does not lie below the root.
pub fn normalize_path(root: &str, path: &str) -> (r: Option<String>)
    ensures
        r matches Some(k) ==> relative_key(root@, path@) == Some(k@),
        r is None <==> relative_key(root@, path@) is None,
{
    let prefix = prefix_of_root(root);
    let p = prefix.as_str();
    if starts_with(path, p) {
        let n = path.unicode_len();
        let m = p.unicode_len();
        let rest = path.substring_char(m, n);
        Some(String::from_str(rest))
    } else {
        None
    }
}

/// The local path of the object stored under `key` below `root`.
pub fn key_to_path(root: &str, key: &str) -> (r: String)
    ensures
        r@ == local_path(root@, key@),
{
    let mut r = prefix_of_root(root);
    r.append(key);
    r
}

/// A path written from its parts, with forward slashes between them.
pub fn stringify_path(parts: &Vec<String>) -> (r: String)
    ensures
        r@ == joined(views(parts@)),
{
    let mut r = String::new();
    let mut i: usize = 0;
    while i < parts.len()
        invariant
            i <= parts@.len(),
            r@ == joined(views(parts@.subrange(0, i as int))),
        decreases parts@.len() - i,
    {
        let ghost before = views(parts@.subrange(0, i as int));
        let ghost after = views(parts@.subrange(0, i + 1));
        assert(after.drop_last() =~= before);
        assert(after.last() == parts@[i as int]@);
        if i > 0 {
            proof {
                reveal_strlit("/");
            }
            r.append("/");
            assert("/"@ =~= seq!['/']);
            r.append(parts[i].as_str());
            assert(r@ =~= joined(after));
        } else {
            r.append(parts[i].as_str());
            assert(r@ =~= joined(after));
        }
        i = i + 1;
    }
    assert(parts@.subrange(0, parts@.len() as int) =~= parts@);
    r
}

/// A key always comes back from the local path that it names.
pub proof fn lemma_key_round_trip(root: Seq<char>, key: Seq<char>)
    ensures
        relative_key(root, local_path(root, key)) == Some(key),
{
    let p = root_prefix(root);
    let full = local_path(root, key);
    assert(full.subrange(0, p.len() as int) =~= p);
    assert(full.subrange(p.len() as int, full.len() as int) =~= key);
}

} // verus!

//! Path computation for the download operation.
//!
//! Local destination paths are modelled as plain strings with `'/'` as the
//! separator. Joining a directory with a storage key and finding the
//! parent of the joined path are the two computations the download
//! operation needs before it touches the filesystem; both are verified
//! against spec-level definitions here.

use vstd::prelude::*;
use vstd::string::*;

verus! {

/// The joined form of a directory and a storage key: the key's segments
/// become path components under the directory. An empty directory leaves
/// the key alone; a key that begins with the separator replaces the
/// directory outright; a directory with a trailing separator gets none
/// added.
pub open spec fn join_spec(dir: Seq<char>, key: Seq<char>) -> Seq<char> {
    if dir.len() == 0 {
        key
    } else if key.len() > 0 && key.first() == '/' {
        key
    } else if dir.last() == '/' {
        dir + key
    } else {
        dir + seq!['/'] + key
    }
}

/// The length of the parent prefix of a path: the index of the last
/// separator, or nothing when the path has no separator at all.
pub open spec fn parent_len_spec(p: Seq<char>) -> Option<int>
    decreases p.len(),
{
    if p.len() == 0 {
        None
    } else if p.last() == '/' {
        Some(p.len() - 1)
    } else {
        parent_len_spec(p.drop_last())
    }
}

/// The parent of a path: everything before the last separator, or nothing
/// when the path has no separator.
pub open spec fn parent_spec(p: Seq<char>) -> Option<Seq<char>> {
    match parent_len_spec(p) {
        Some(n) => Some(p.take(n)),
        None => None,
    }
}

/// Joins a destination directory with a storage key.
pub fn join_path(dir: &str, key: &str) -> (r: String)
    ensures
        r@ == join_spec(dir@, key@),
{
    let dn = dir.unicode_len();
    let kn = key.unicode_len();
    if dn == 0 {
        String::from_str(key)
    } else if kn > 0 && key.get_char(0) == '/' {
        String::from_str(key)
    } else if dir.get_char(dn - 1) == '/' {
        let mut s = String::from_str(dir);
        s.append(key);
        s
    } else {
        let mut s = String::from_str(dir);
        s.append("/");
        s.append(key);
        proof {
            reveal_strlit("/");
            assert(s@ =~= dir@ + seq!['/'] + key@);
        }
        s
    }
}

/// A separator at position `i`, with none after it, pins the parent
/// length down to `i`.
proof fn lemma_parent_len_at_last_separator(p: Seq<char>, i: int)
    requires
        0 <= i < p.len(),
        p[i] == '/',
        forall|j: int| i < j < p.len() ==> p[j] != '/',
    ensures
        parent_len_spec(p) == Some(i),
    decreases p.len(),
{
    if i == p.len() - 1 {
    } else {
        assert(p.drop_last()[i] == p[i]);
        lemma_parent_len_at_last_separator(p.drop_last(), i);
    }
}

/// A path without any separator has no parent.
proof fn lemma_parent_len_no_separator(p: Seq<char>)
    requires
        forall|j: int| 0 <= j < p.len() ==> p[j] != '/',
    ensures
        parent_len_spec(p) is None,
    decreases p.len(),
{
    if p.len() > 0 {
        lemma_parent_len_no_separator(p.drop_last());
    }
}

/// A separator anywhere in the path guarantees a parent.
proof fn lemma_parent_len_some(p: Seq<char>, i: int)
    requires
        0 <= i < p.len(),
        p[i] == '/',
    ensures
        parent_len_spec(p) is Some,
    decreases p.len(),
{
    if p.last() != '/' {
        assert(p.drop_last()[i] == p[i]);
        lemma_parent_len_some(p.drop_last(), i);
    }
}

/// Joining a non-empty directory with any key yields a path that has a
/// parent: the separator introduced (or already present) by the join sees
/// to it. The download operation can therefore always derive the
/// directories to create when its destination is named at all.
pub proof fn lemma_join_has_parent(dir: Seq<char>, key: Seq<char>)
    requires
        dir.len() > 0,
    ensures
        parent_spec(join_spec(dir, key)) is Some,
{
    let p = join_spec(dir, key);
    if key.len() > 0 && key.first() == '/' {
        lemma_parent_len_some(p, 0);
    } else if dir.last() == '/' {
        assert(p[dir.len() - 1] == '/');
        lemma_parent_len_some(p, dir.len() - 1);
    } else {
        assert(p[dir.len() as int] == '/');
        lemma_parent_len_some(p, dir.len() as int);
    }
}

/// A path that has a parent has its last separator at the parent's
/// length, with nothing but non-separators after it.
proof fn lemma_parent_len_props(p: Seq<char>)
    requires
        parent_len_spec(p) is Some,
    ensures
        0 <= parent_len_spec(p)->0 < p.len(),
        p[parent_len_spec(p)->0] == '/',
    decreases p.len(),
{
    if p.len() > 0 && p.last() != '/' {
        lemma_parent_len_props(p.drop_last());
    }
}

/// Prefixing a path that has a parent shifts the parent length by the
/// prefix's length.
proof fn lemma_parent_len_append(a: Seq<char>, b: Seq<char>)
    requires
        parent_len_spec(b) is Some,
    ensures
        parent_len_spec(a + b) == Some(a.len() + parent_len_spec(b)->0),
    decreases b.len(),
{
    assert(b.len() > 0);
    if b.last() == '/' {
        assert((a + b).last() == '/');
    } else {
        lemma_parent_len_append(a, b.drop_last());
        assert((a + b).drop_last() =~= a + b.drop_last());
        assert((a + b).last() == b.last());
    }
}

/// A key with nested segments — one that holds a separator of its own and
/// does not begin with one — lands at the fully joined path, whose parent
/// is the destination joined with the key's own parent: every
/// intermediate segment of the key becomes a directory level under the
/// destination, and those are exactly the levels the download operation
/// creates.
pub proof fn lemma_nested_key_parent(dir: Seq<char>, key: Seq<char>)
    requires
        dir.len() > 0,
        key.len() > 0,
        key.first() != '/',
        parent_len_spec(key) is Some,
    ensures
        parent_spec(join_spec(dir, key)) == Some(join_spec(dir, parent_spec(key)->0)),
{
    let kp_len = parent_len_spec(key)->0;
    let kp = key.take(kp_len);
    lemma_parent_len_props(key);
    if dir.last() == '/' {
        let p = dir + key;
        lemma_parent_len_append(dir, key);
        assert(p.take(dir.len() + kp_len) =~= dir + kp);
        if kp.len() == 0 {
            assert(join_spec(dir, kp) =~= dir + kp);
        } else {
            assert(kp.first() == key.first());
        }
    } else {
        let pre = dir + seq!['/'];
        let p = pre + key;
        lemma_parent_len_append(pre, key);
        assert(join_spec(dir, key) =~= p);
        assert(parent_len_spec(join_spec(dir, key)) == Some(pre.len() + kp_len));
        assert(p.take(pre.len() + kp_len) =~= dir + seq!['/'] + kp);
        if kp.len() == 0 {
            assert(join_spec(dir, kp) =~= dir + seq!['/'] + kp);
        } else {
            assert(kp.first() == key.first());
        }
    }
}

/// Finds the parent of a path: the prefix before the last separator.
pub fn parent_of(path: &str) -> (r: Option<String>)
    ensures
        r matches Some(p) ==> parent_spec(path@) == Some(p@),
        r is None ==> parent_spec(path@) is None,
{
    let n = path.unicode_len();
    proof {
        assert(path@.take(n as int) =~= path@);
    }
    let mut i = n;
    while i > 0
        invariant
            i <= n,
            n == path@.len(),
            parent_len_spec(path@) == parent_len_spec(path@.take(i as int)),
        decreases i,
    {
        if path.get_char(i - 1) == '/' {
            proof {
                assert(path@.take(i as int).last() == path@[i - 1]);
            }
            let p = path.substring_char(0, i - 1);
            proof {
                assert(p@ =~= path@.take(i - 1));
            }
            return Some(String::from_str(p));
        }
        proof {
            assert(path@.take(i as int).last() == path@[i - 1]);
            assert(path@.take(i as int).drop_last() =~= path@.take(i - 1));
        }
        i = i - 1;
    }
    None
}

} // verus!

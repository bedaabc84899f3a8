//! Byte-level path model. A virtual path is an absolute path as filesystem
//! clients see it; the relay resolves it against the real root by dropping
//! the leading separators and joining what is left onto the root.

use vstd::prelude::*;

verus! {

/// The path separator byte.
pub const SLASH: u8 = 47;

/// A virtual path is absolute: nonempty and starting with the separator.
pub open spec fn is_absolute(p: Seq<u8>) -> bool {
    p.len() > 0 && p[0] == SLASH
}

/// The path with its leading separator bytes removed.
pub open spec fn strip_leading_slashes(p: Seq<u8>) -> Seq<u8>
    decreases p.len(),
{
    if p.len() > 0 && p[0] == SLASH {
        strip_leading_slashes(p.skip(1))
    } else {
        p
    }
}

/// The real path a virtual path stands for: the real root, one separator,
/// then the virtual path's components.
pub open spec fn real_path_of(root: Seq<u8>, partial: Seq<u8>) -> Seq<u8> {
    root + seq![SLASH] + strip_leading_slashes(partial)
}

/// A virtual path extended by one entry name, as the enumerator forms it for
/// a fallback status call: a separator is added only where the path does not
/// already end with one.
pub open spec fn virtual_child_of(path: Seq<u8>, name: Seq<u8>) -> Seq<u8> {
    if path.len() > 0 && path[path.len() - 1] == SLASH {
        path + name
    } else {
        path + seq![SLASH] + name
    }
}

/// Stripping is inert on a path that does not start with a separator.
pub proof fn lemma_strip_noop(p: Seq<u8>)
    requires
        p.len() == 0 || p[0] != SLASH,
    ensures
        strip_leading_slashes(p) == p,
{
}

/// Dropping one leading separator commutes with stripping them all.
pub proof fn lemma_strip_step(p: Seq<u8>)
    requires
        p.len() > 0,
        p[0] == SLASH,
    ensures
        strip_leading_slashes(p) == strip_leading_slashes(p.skip(1)),
{
}

/// Appends `src[from..]` to `dst`.
pub fn push_tail(dst: &mut Vec<u8>, src: &Vec<u8>, from: usize)
    requires
        from <= src@.len(),
    ensures
        final(dst)@ == old(dst)@ + src@.skip(from as int),
{
    let ghost dst0 = dst@;
    let mut i: usize = from;
    while i < src.len()
        invariant
            from <= i <= src@.len(),
            dst@ == dst0 + src@.subrange(from as int, i as int),
        decreases src@.len() - i,
    {
        dst.push(src[i]);
        proof {
            assert(src@.subrange(from as int, (i + 1) as int)
                == src@.subrange(from as int, i as int).push(src@[i as int]));
        }
        i = i + 1;
    }
    proof {
        assert(src@.subrange(from as int, src@.len() as int) == src@.skip(from as int));
    }
}

/// The real path for a virtual path: the real root, a separator, and the
/// virtual path stripped of its leading separators.
pub fn join_real(root: &Vec<u8>, partial: &Vec<u8>) -> (r: Vec<u8>)
    requires
        is_absolute(partial@),
    ensures
        r@ == real_path_of(root@, partial@),
{
    let mut i: usize = 0;
    while i < partial.len() && partial[i] == SLASH
        invariant
            0 <= i <= partial@.len(),
            forall|j: int| 0 <= j < i ==> partial@[j] == SLASH,
        decreases partial@.len() - i,
    {
        i = i + 1;
    }
    proof {
        lemma_strip_skip(partial@, i as int);
        if i < partial@.len() {
            lemma_strip_noop(partial@.skip(i as int));
        } else {
            assert(partial@.skip(i as int) =~= Seq::<u8>::empty());
            lemma_strip_noop(partial@.skip(i as int));
        }
    }
    let mut r: Vec<u8> = Vec::new();
    push_tail(&mut r, root, 0);
    proof {
        assert(r@ =~= root@);
    }
    r.push(SLASH);
    push_tail(&mut r, partial, i);
    proof {
        assert(r@ =~= real_path_of(root@, partial@));
    }
    r
}

/// Stripping all leading separators equals stripping behind any prefix of
/// them.
proof fn lemma_strip_skip(p: Seq<u8>, i: int)
    requires
        0 <= i <= p.len(),
        forall|j: int| 0 <= j < i ==> p[j] == SLASH,
    ensures
        strip_leading_slashes(p) == strip_leading_slashes(p.skip(i)),
    decreases i,
{
    if i > 0 {
        lemma_strip_step(p);
        assert(p.skip(1).skip(i - 1) =~= p.skip(i));
        lemma_strip_skip(p.skip(1), i - 1);
    } else {
        assert(p.skip(0) =~= p);
    }
}

/// A fresh copy of a byte string.
pub fn copy_bytes(src: &Vec<u8>) -> (r: Vec<u8>)
    ensures
        r@ == src@,
{
    let mut r: Vec<u8> = Vec::new();
    push_tail(&mut r, src, 0);
    proof {
        assert(r@ =~= src@);
    }
    r
}

/// The virtual path of one directory entry under `path`.
pub fn join_virtual(path: &Vec<u8>, name: &Vec<u8>) -> (r: Vec<u8>)
    ensures
        r@ == virtual_child_of(path@, name@),
{
    let mut r: Vec<u8> = Vec::new();
    push_tail(&mut r, path, 0);
    proof {
        assert(r@ =~= path@);
    }
    let n: usize = path.len();
    if n == 0 || path[n - 1] != SLASH {
        r.push(SLASH);
    }
    push_tail(&mut r, name, 0);
    proof {
        assert(r@ =~= virtual_child_of(path@, name@));
    }
    r
}

/// Joining keeps a path absolute: the child of an absolute virtual path is
/// itself absolute, so a fallback status call can always be formed.
pub proof fn lemma_child_absolute(path: Seq<u8>, name: Seq<u8>)
    requires
        is_absolute(path),
    ensures
        is_absolute(virtual_child_of(path, name)),
{
}

} // verus!

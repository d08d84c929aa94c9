//! Paths and file names as the bytes the operating system hands out.
//!
//! A name delivered with a notification is a bare file name: no separator, and no
//! particular encoding. The functions here therefore work on bytes, and say in their
//! contracts exactly which bytes come out.

use vstd::prelude::*;

verus! {

/// The byte between the components of a path.
pub const SEPARATOR: u8 = 0x2f;

/// The byte before an extension.
pub const DOT: u8 = 0x2e;

/// The path of `name` seen from `dir`.
///
/// A name that starts at the root stands for itself. Any other name follows the
/// directory, after one separator unless the directory is empty or ends in one.
pub open spec fn joined(dir: Seq<u8>, name: Seq<u8>) -> Seq<u8> {
    if name.len() > 0 && name[0] == SEPARATOR {
        name
    } else if dir.len() > 0 && dir.last() != SEPARATOR {
        dir.push(SEPARATOR) + name
    } else {
        dir + name
    }
}

/// Index of the last dot of `name`, or -1 where it has none.
pub open spec fn last_dot(name: Seq<u8>) -> int
    decreases name.len(),
{
    if name.len() == 0 {
        -1
    } else if name.last() == DOT {
        name.len() - 1
    } else {
        last_dot(name.drop_last())
    }
}

/// The extension of a bare file name: what follows its last dot.
///
/// A name without a dot has none, nor has one whose only dot comes first (`.profile`),
/// nor the parent entry `..`. A name that ends in a dot has the empty extension.
pub open spec fn extension(name: Seq<u8>) -> Option<Seq<u8>> {
    let dot = last_dot(name);
    if dot <= 0 || name == seq![DOT, DOT] {
        None
    } else {
        Some(name.subrange(dot + 1, name.len() as int))
    }
}

/// The bytes of an optional name.
pub open spec fn bytes_of(name: Option<Vec<u8>>) -> Option<Seq<u8>> {
    match name {
        Some(bytes) => Some(bytes@),
        None => None,
    }
}

/// `last_dot` finds a dot, and no dot comes after it.
pub proof fn lemma_last_dot(name: Seq<u8>)
    ensures
        -1 <= last_dot(name) < name.len(),
        last_dot(name) >= 0 ==> name[last_dot(name)] == DOT,
        forall|i: int| last_dot(name) < i < name.len() ==> name[i] != DOT,
    decreases name.len(),
{
    if name.len() > 0 && name.last() != DOT {
        let front = name.drop_last();
        lemma_last_dot(front);
        assert forall|i: int| last_dot(name) < i < name.len() implies name[i] != DOT by {
            if i < front.len() {
                assert(front[i] == name[i]);
            }
        }
    }
}

/// A fresh vector with the bytes of `source`.
pub fn copy_bytes(source: &Vec<u8>) -> (copy: Vec<u8>)
    ensures
        copy@ == source@,
{
    let mut copy: Vec<u8> = Vec::new();
    append_bytes(&mut copy, source, 0);
    assert(source@.subrange(0, source@.len() as int) =~= source@);
    copy
}

/// Appends to `out` the bytes of `source` from index `start` on.
pub fn append_bytes(out: &mut Vec<u8>, source: &Vec<u8>, start: usize)
    requires
        start <= source.len(),
    ensures
        final(out)@ == old(out)@ + source@.subrange(start as int, source@.len() as int),
{
    let mut i: usize = start;
    while i < source.len()
        invariant
            start <= i <= source.len(),
            out@ == old(out)@ + source@.subrange(start as int, i as int),
        decreases source.len() - i,
    {
        out.push(source[i]);
        i = i + 1;
        assert(source@.subrange(start as int, i as int) =~= source@.subrange(
            start as int,
            i - 1,
        ).push(source@[i - 1]));
    }
}

/// Joins a directory and a name into one path.
pub fn join(dir: &Vec<u8>, name: &Vec<u8>) -> (path: Vec<u8>)
    ensures
        path@ == joined(dir@, name@),
{
    let mut path: Vec<u8> = Vec::new();
    let rooted = name.len() > 0 && name[0] == SEPARATOR;
    if !rooted {
        append_bytes(&mut path, dir, 0);
        assert(dir@.subrange(0, dir@.len() as int) =~= dir@);
        if dir.len() > 0 && dir[dir.len() - 1] != SEPARATOR {
            path.push(SEPARATOR);
        }
    }
    append_bytes(&mut path, name, 0);
    assert(name@.subrange(0, name@.len() as int) =~= name@);
    path
}

/// Whether two byte strings are the same.
pub fn same_bytes(a: &Vec<u8>, b: &Vec<u8>) -> (same: bool)
    ensures
        same == (a@ == b@),
{
    if a.len() != b.len() {
        return false;
    }
    let mut i: usize = 0;
    while i < a.len()
        invariant
            a.len() == b.len(),
            i <= a.len(),
            a@.subrange(0, i as int) == b@.subrange(0, i as int),
        decreases a.len() - i,
    {
        if a[i] != b[i] {
            return false;
        }
        i = i + 1;
        assert(a@.subrange(0, i as int) =~= a@.subrange(0, i - 1).push(a@[i - 1]));
        assert(b@.subrange(0, i as int) =~= b@.subrange(0, i - 1).push(b@[i - 1]));
    }
    assert(a@.subrange(0, a@.len() as int) =~= a@);
    assert(b@.subrange(0, b@.len() as int) =~= b@);
    true
}

/// The extension of a bare file name, if it has one.
pub fn extension_of(name: &Vec<u8>) -> (ext: Option<Vec<u8>>)
    ensures
        bytes_of(ext) == extension(name@),
{
    let len = name.len();
    if len == 2 && name[0] == DOT && name[1] == DOT {
        assert(name@ =~= seq![DOT, DOT]);
        return None;
    }
    let mut i: usize = len;
    assert(name@.subrange(0, len as int) =~= name@);
    while i > 0 && name[i - 1] != DOT
        invariant
            i <= len,
            len == name.len(),
            last_dot(name@) == last_dot(name@.subrange(0, i as int)),
        decreases i,
    {
        assert(name@.subrange(0, i as int).drop_last() =~= name@.subrange(0, i - 1));
        i = i - 1;
    }
    proof {
        if name@ == seq![DOT, DOT] {
            assert(name@.len() == 2);
            assert(name@[0] == DOT && name@[1] == DOT);
        }
    }
    if i <= 1 {
        // no dot at all, or the only dot comes first
        return None;
    }
    let mut ext: Vec<u8> = Vec::new();
    append_bytes(&mut ext, name, i);
    Some(ext)
}

} // verus!

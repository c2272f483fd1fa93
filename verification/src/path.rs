//! NUL-terminated byte-path primitives.
//!
//! Paths travel through the engine as byte strings. A [`NulPath`] is a
//! NUL-free byte sequence followed by exactly one terminating NUL, usable
//! directly by `*at` syscalls. The helpers below also cover the plain
//! (unterminated) byte paths that the command-line planners manipulate.

use vstd::prelude::*;

use crate::Error;

verus! {

/// The platform path separator as a byte.
pub const SEPARATOR: u8 = 47u8;

/// The `.` byte, the self-referential directory component.
pub const DOT: u8 = 46u8;

/// Holds when no byte of `s` is NUL.
pub open spec fn nul_free(s: Seq<u8>) -> bool {
    forall|i: int| 0 <= i < s.len() ==> s[i] != 0
}

/// A NUL-terminated byte path: the payload bytes are NUL-free and the last
/// byte is the single terminating NUL.
#[derive(Debug)]
pub struct NulPath {
    bytes: Vec<u8>,
}

impl View for NulPath {
    type V = Seq<u8>;

    closed spec fn view(&self) -> Seq<u8> {
        self.bytes@
    }
}

impl NulPath {
    /// Well-formedness: at least the terminator, which is the only NUL.
    pub open spec fn wf(&self) -> bool {
        &&& self@.len() >= 1
        &&& self@.last() == 0
        &&& nul_free(self@.drop_last())
    }

    /// The path bytes without the terminating NUL.
    pub open spec fn body(&self) -> Seq<u8> {
        self@.drop_last()
    }

    /// The full length in bytes, terminator included.
    pub fn len(&self) -> (n: usize)
        ensures
            n == self@.len(),
    {
        self.bytes.len()
    }

    /// The raw bytes, terminator included; this is what a syscall receives.
    pub fn as_bytes(&self) -> (r: &Vec<u8>)
        ensures
            r@ == self@,
    {
        &self.bytes
    }

    /// Gives the bytes up, terminator included.
    pub fn into_bytes(self) -> (r: Vec<u8>)
        ensures
            r@ == self@,
    {
        self.bytes
    }
}

impl Clone for NulPath {
    fn clone(&self) -> (r: Self)
        ensures
            r@ == self@,
    {
        let mut bytes: Vec<u8> = Vec::new();
        let n = self.bytes.len();
        let mut i: usize = 0;
        while i < n
            invariant
                n == self.bytes.len(),
                i <= n,
                bytes@ == self.bytes@.take(i as int),
            decreases n - i,
        {
            bytes.push(self.bytes[i]);
            i += 1;
            proof {
                assert(bytes@ =~= self.bytes@.take(i as int));
            }
        }
        proof {
            assert(bytes@ =~= self.bytes@);
        }
        NulPath { bytes }
    }
}

/// Converts a platform path, given as its raw bytes, to a NUL-terminated
/// byte path. Fails with `BadPath` exactly when the bytes contain a NUL.
pub fn as_nul_terminated(path: Vec<u8>) -> (r: Result<NulPath, Error>)
    ensures
        r is Ok <==> nul_free(path@),
        r matches Ok(p) ==> p.wf() && p@ == path@.push(0u8),
        r matches Err(e) ==> e is BadPath,
{
    let n = path.len();
    let mut i: usize = 0;
    while i < n
        invariant
            n == path.len(),
            i <= n,
            forall|j: int| 0 <= j < i ==> path@[j] != 0,
        decreases n - i,
    {
        if path[i] == 0 {
            return Err(Error::BadPath);
        }
        i += 1;
    }
    let mut bytes = path;
    bytes.push(0);
    Ok(NulPath { bytes })
}

/// `concat(prefix, name)`: `prefix + separator + name + NUL`. The prefix's
/// own terminator is consumed.
pub fn concat(prefix: &NulPath, name: &Vec<u8>) -> (r: NulPath)
    requires
        prefix.wf(),
        nul_free(name@),
    ensures
        r.wf(),
        r@ == prefix.body() + seq![SEPARATOR] + name@ + seq![0u8],
{
    let mut bytes = join_display(prefix, name);
    bytes.push(0);
    proof {
        assert(bytes@ =~= prefix.body() + seq![SEPARATOR] + name@ + seq![0u8]);
        assert(bytes@.drop_last() =~= prefix.body() + seq![SEPARATOR] + name@);
    }
    NulPath { bytes }
}

/// The display form of a child path, `prefix + separator + name`, without a
/// terminator; used for error messages.
pub fn join_display(prefix: &NulPath, name: &Vec<u8>) -> (r: Vec<u8>)
    requires
        prefix.wf(),
    ensures
        r@ == prefix.body() + seq![SEPARATOR] + name@,
{
    let mut bytes: Vec<u8> = Vec::new();
    let n = prefix.bytes.len();
    let mut i: usize = 0;
    while i < n - 1
        invariant
            n == prefix.bytes.len(),
            n >= 1,
            i <= n - 1,
            bytes@ == prefix.bytes@.take(i as int),
        decreases n - i,
    {
        bytes.push(prefix.bytes[i]);
        i += 1;
        proof {
            assert(bytes@ =~= prefix.bytes@.take(i as int));
        }
    }
    bytes.push(SEPARATOR);
    let m = name.len();
    let mut j: usize = 0;
    while j < m
        invariant
            m == name.len(),
            j <= m,
            bytes@ == prefix.body() + seq![SEPARATOR] + name@.take(j as int),
        decreases m - j,
    {
        bytes.push(name[j]);
        j += 1;
        proof {
            assert(bytes@ =~= prefix.body() + seq![SEPARATOR] + name@.take(j as int));
        }
    }
    proof {
        assert(prefix.bytes@.take(n - 1) =~= prefix.body());
        assert(bytes@ =~= prefix.body() + seq![SEPARATOR] + name@);
    }
    bytes
}

/// One trailing separator is stripped; the root path `/` keeps its only
/// byte.
pub open spec fn spec_strip_trailing_separator(s: Seq<u8>) -> Seq<u8> {
    if s.len() > 1 && s.last() == SEPARATOR {
        s.drop_last()
    } else {
        s
    }
}

/// Strips a single trailing separator for consistent root semantics; `/`
/// itself is returned unchanged.
pub fn strip_trailing_separator(path: Vec<u8>) -> (r: Vec<u8>)
    ensures
        r@ == spec_strip_trailing_separator(path@),
{
    let mut path = path;
    if path.len() > 1 && path[path.len() - 1] == SEPARATOR {
        path.pop();
    }
    path
}

/// Appends `src[from..to]` to `dst`.
fn push_range(dst: &mut Vec<u8>, src: &Vec<u8>, from: usize, to: usize)
    requires
        from <= to <= src@.len(),
    ensures
        final(dst)@ == old(dst)@ + src@.subrange(from as int, to as int),
{
    let mut i = from;
    while i < to
        invariant
            from <= i <= to <= src@.len(),
            dst@ == old(dst)@ + src@.subrange(from as int, i as int),
        decreases to - i,
    {
        dst.push(src[i]);
        i += 1;
        proof {
            assert(dst@ =~= old(dst)@ + src@.subrange(from as int, i as int));
        }
    }
}

/// Holds when `a` is a proper prefix of `b`.
pub open spec fn is_strict_prefix(a: Seq<u8>, b: Seq<u8>) -> bool {
    a.len() < b.len() && b.take(a.len() as int) == a
}

/// A fresh copy of a byte path.
pub fn clone_bytes(src: &Vec<u8>) -> (r: Vec<u8>)
    ensures
        r@ == src@,
{
    let mut out: Vec<u8> = Vec::new();
    push_range(&mut out, src, 0, src.len());
    proof {
        assert(out@ =~= src@);
    }
    out
}

/// `s` with every trailing separator removed.
pub open spec fn spec_strip_all_trailing_separators(s: Seq<u8>) -> Seq<u8>
    decreases s.len(),
{
    if s.len() > 0 && s.last() == SEPARATOR {
        spec_strip_all_trailing_separators(s.drop_last())
    } else {
        s
    }
}

/// The start of the last component of `s`: the index after the last
/// separator, or `0` when there is none.
pub open spec fn spec_component_start(s: Seq<u8>) -> int
    decreases s.len(),
{
    if s.len() == 0 {
        0
    } else if s.last() == SEPARATOR {
        s.len() as int
    } else {
        spec_component_start(s.drop_last())
    }
}

/// The basename of a byte path: its last component once trailing separators
/// are dropped; none when that component is empty (the root or an empty
/// path), `.`, or `..`.
pub open spec fn spec_file_name(s: Seq<u8>) -> Option<Seq<u8>> {
    let t = spec_strip_all_trailing_separators(s);
    let c = t.subrange(spec_component_start(t), t.len() as int);
    if c.len() == 0 || c == seq![DOT] || c == seq![DOT, DOT] {
        None
    } else {
        Some(c)
    }
}

/// The basename of `path`, per [`spec_file_name`]. A returned name is never
/// empty and contains no separator.
pub fn file_name_of(path: &Vec<u8>) -> (r: Option<Vec<u8>>)
    ensures
        match r {
            Some(name) => spec_file_name(path@) == Some(name@),
            None => spec_file_name(path@) is None,
        },
{
    let mut end = path.len();
    proof {
        assert(path@.take(end as int) =~= path@);
    }
    while end > 0 && path[end - 1] == SEPARATOR
        invariant
            end <= path@.len(),
            spec_strip_all_trailing_separators(path@) == spec_strip_all_trailing_separators(
                path@.take(end as int),
            ),
        decreases end,
    {
        proof {
            assert(path@.take(end as int).drop_last() =~= path@.take(end as int - 1));
        }
        end -= 1;
    }
    let ghost t = path@.take(end as int);
    proof {
        assert(spec_strip_all_trailing_separators(path@) == t);
    }
    let mut start = end;
    while start > 0 && path[start - 1] != SEPARATOR
        invariant
            start <= end <= path@.len(),
            spec_component_start(t) == spec_component_start(path@.take(start as int)),
        decreases start,
    {
        proof {
            assert(path@.take(start as int).drop_last() =~= path@.take(start as int - 1));
        }
        start -= 1;
    }
    proof {
        if start > 0 {
            assert(path@.take(start as int).last() == SEPARATOR);
        }
        assert(spec_component_start(t) == start as int);
    }
    let ghost c = t.subrange(start as int, t.len() as int);
    proof {
        assert(c =~= path@.subrange(start as int, end as int));
    }
    let len = end - start;
    if len == 0 {
        return None;
    }
    if len == 1 && path[start] == DOT {
        proof {
            assert(c =~= seq![DOT]);
        }
        return None;
    }
    if len == 2 && path[start] == DOT && path[start + 1] == DOT {
        proof {
            assert(c =~= seq![DOT, DOT]);
        }
        return None;
    }
    proof {
        assert(c != seq![DOT] && c != seq![DOT, DOT]) by {
            if c == seq![DOT] {
                assert(c.len() == 1 && c[0] == DOT);
            }
            if c == seq![DOT, DOT] {
                assert(c.len() == 2 && c[0] == DOT && c[1] == DOT);
            }
        }
    }
    let mut name: Vec<u8> = Vec::new();
    push_range(&mut name, path, start, end);
    proof {
        assert(name@ =~= c);
    }
    Some(name)
}

/// The parent of a byte path: the path without its last component. The
/// root and the empty path have none; a single relative component has the
/// empty parent (the current directory); the last component of an absolute
/// path with no others has the root as parent.
pub open spec fn spec_parent(s: Seq<u8>) -> Option<Seq<u8>> {
    let t = spec_strip_all_trailing_separators(s);
    if t.len() == 0 {
        None
    } else {
        let prefix = t.take(spec_component_start(t));
        let q = spec_strip_all_trailing_separators(prefix);
        if q.len() > 0 {
            Some(q)
        } else if prefix.len() > 0 {
            Some(seq![SEPARATOR])
        } else {
            Some(Seq::empty())
        }
    }
}

/// The parent of `path`, per [`spec_parent`].
pub fn parent_of(path: &Vec<u8>) -> (r: Option<Vec<u8>>)
    ensures
        match r {
            Some(parent) => spec_parent(path@) == Some(parent@),
            None => spec_parent(path@) is None,
        },
{
    let mut end = path.len();
    proof {
        assert(path@.take(end as int) =~= path@);
    }
    while end > 0 && path[end - 1] == SEPARATOR
        invariant
            end <= path@.len(),
            spec_strip_all_trailing_separators(path@) == spec_strip_all_trailing_separators(
                path@.take(end as int),
            ),
        decreases end,
    {
        proof {
            assert(path@.take(end as int).drop_last() =~= path@.take(end as int - 1));
        }
        end -= 1;
    }
    let ghost t = path@.take(end as int);
    proof {
        assert(spec_strip_all_trailing_separators(path@) == t);
    }
    if end == 0 {
        return None;
    }
    let mut start = end;
    while start > 0 && path[start - 1] != SEPARATOR
        invariant
            start <= end <= path@.len(),
            spec_component_start(t) == spec_component_start(path@.take(start as int)),
        decreases start,
    {
        proof {
            assert(path@.take(start as int).drop_last() =~= path@.take(start as int - 1));
        }
        start -= 1;
    }
    proof {
        if start > 0 {
            assert(path@.take(start as int).last() == SEPARATOR);
        }
        assert(spec_component_start(t) == start as int);
        assert(t.take(start as int) =~= path@.take(start as int));
    }
    let ghost prefix = t.take(start as int);
    let mut stripped = start;
    while stripped > 0 && path[stripped - 1] == SEPARATOR
        invariant
            stripped <= start <= path@.len(),
            spec_strip_all_trailing_separators(prefix) == spec_strip_all_trailing_separators(
                path@.take(stripped as int),
            ),
        decreases stripped,
    {
        proof {
            assert(path@.take(stripped as int).drop_last() =~= path@.take(stripped as int - 1));
        }
        stripped -= 1;
    }
    proof {
        assert(spec_strip_all_trailing_separators(prefix) == path@.take(stripped as int));
    }
    if stripped > 0 {
        let mut parent: Vec<u8> = Vec::new();
        push_range(&mut parent, path, 0, stripped);
        proof {
            assert(parent@ =~= path@.take(stripped as int));
        }
        Some(parent)
    } else if start > 0 {
        let mut parent: Vec<u8> = Vec::new();
        parent.push(SEPARATOR);
        proof {
            assert(parent@ =~= seq![SEPARATOR]);
        }
        Some(parent)
    } else {
        let parent: Vec<u8> = Vec::new();
        proof {
            assert(parent@ =~= Seq::<u8>::empty());
        }
        Some(parent)
    }
}

/// Holds when a copy destination names a directory to copy *into*: it ends
/// with a separator, or it is `.` or `..`, or it ends with `/.` or `/..`.
pub open spec fn spec_is_into_directory(s: Seq<u8>) -> bool {
    let n = s.len() as int;
    ||| n >= 1 && s[n - 1] == SEPARATOR
    ||| s == seq![DOT]
    ||| n >= 2 && s[n - 1] == DOT && s[n - 2] == SEPARATOR
    ||| s == seq![DOT, DOT]
    ||| n >= 3 && s[n - 1] == DOT && s[n - 2] == DOT && s[n - 3] == SEPARATOR
}

/// Decides whether the destination argument means "copy into this
/// directory" rather than "copy to this name".
pub fn is_into_directory(to: &Vec<u8>) -> (r: bool)
    ensures
        r == spec_is_into_directory(to@),
{
    let n = to.len();
    if n >= 1 && to[n - 1] == SEPARATOR {
        return true;
    }
    if n >= 1 && to[n - 1] == DOT {
        if n == 1 {
            proof {
                assert(to@ =~= seq![DOT]);
            }
            return true;
        }
        if to[n - 2] == SEPARATOR {
            return true;
        }
        if to[n - 2] == DOT {
            if n == 2 {
                proof {
                    assert(to@ =~= seq![DOT, DOT]);
                }
                return true;
            }
            if to[n - 3] == SEPARATOR {
                return true;
            }
        }
    }
    proof {
        if to@ == seq![DOT] {
            assert(to@.len() == 1 && to@[0] == DOT);
        }
        if to@ == seq![DOT, DOT] {
            assert(to@.len() == 2 && to@[1] == DOT);
        }
    }
    false
}

/// `dir` with `name` appended as a further component: a separator is added
/// unless `dir` is empty or already ends with one.
pub open spec fn spec_join(dir: Seq<u8>, name: Seq<u8>) -> Seq<u8> {
    if dir.len() == 0 {
        name
    } else if dir.last() == SEPARATOR {
        dir + name
    } else {
        dir + seq![SEPARATOR] + name
    }
}

/// Joins a further component onto a byte path, per [`spec_join`].
pub fn join_path(dir: &Vec<u8>, name: &Vec<u8>) -> (r: Vec<u8>)
    ensures
        r@ == spec_join(dir@, name@),
{
    let mut out: Vec<u8> = Vec::new();
    push_range(&mut out, dir, 0, dir.len());
    proof {
        assert(out@ =~= dir@);
    }
    if dir.len() > 0 && dir[dir.len() - 1] != SEPARATOR {
        out.push(SEPARATOR);
    }
    push_range(&mut out, name, 0, name.len());
    proof {
        assert(name@.subrange(0, name@.len() as int) =~= name@);
        assert(out@ =~= spec_join(dir@, name@));
    }
    out
}

} // verus!

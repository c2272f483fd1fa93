//! The copy operation: pre-flight validation of destination roots, the
//! per-entry dispatch of the source walk, and the accounting of the
//! in-kernel file-copy loop.
//!
//! The engine walks each source directory with one open handle per side,
//! recreates subdirectories at the destination, clones leaves (symlink,
//! regular file via in-kernel range copy, anything else via byte copy), and
//! skips the one entry whose inode is the destination root — that is the
//! destination encountered inside the source, and skipping it prevents
//! infinite descent when `to` lives inside `from`.

use vstd::prelude::*;

use crate::path::{DOT, NulPath, SEPARATOR, clone_bytes, concat, nul_free};
use crate::remove::dot_name;
use crate::{Error, FileKind};

verus! {

/// A copy operation: the `(from, to)` pairs and its three flags.
#[derive(Debug)]
pub struct CopyOp {
    /// The source and destination paths, as raw path bytes.
    pub files: Vec<(Vec<u8>, Vec<u8>)>,
    /// Overwrite or merge into an existing destination.
    pub force: bool,
    /// Copy what symlinks point at rather than the symlinks themselves.
    pub follow_symlinks: bool,
    /// Hard-link non-directories instead of copying their data.
    pub hard_link: bool,
}

/// Builds a [`CopyOp`]; by default nothing is forced, symlinks are copied
/// as symlinks, and data is copied rather than hard-linked.
#[derive(Debug)]
pub struct CopyOpBuilder {
    /// The pairs gathered so far.
    pub files: Vec<(Vec<u8>, Vec<u8>)>,
    /// Whether an existing destination is overwritten or merged into.
    pub force: bool,
    /// Whether symlinks are followed.
    pub follow_symlinks: bool,
    /// Whether non-directories are hard-linked.
    pub hard_link: bool,
}

impl CopyOp {
    /// A builder with the defaults `force = false`,
    /// `follow_symlinks = false`, `hard_link = false`.
    pub fn builder() -> (b: CopyOpBuilder)
        ensures
            b.files@ == Seq::<(Vec<u8>, Vec<u8>)>::empty(),
            !b.force,
            !b.follow_symlinks,
            !b.hard_link,
    {
        CopyOpBuilder { files: Vec::new(), force: false, follow_symlinks: false, hard_link: false }
    }
}

impl CopyOpBuilder {
    /// Sets the `(from, to)` pairs to copy.
    pub fn files(self, files: Vec<(Vec<u8>, Vec<u8>)>) -> (b: Self)
        ensures
            b.files == files,
            b.force == self.force,
            b.follow_symlinks == self.follow_symlinks,
            b.hard_link == self.hard_link,
    {
        Self { files, ..self }
    }

    /// Sets whether an existing destination is overwritten or merged into.
    pub fn force(self, force: bool) -> (b: Self)
        ensures
            b.files == self.files,
            b.force == force,
            b.follow_symlinks == self.follow_symlinks,
            b.hard_link == self.hard_link,
    {
        Self { force, ..self }
    }

    /// Sets whether symlinks are followed.
    pub fn follow_symlinks(self, follow_symlinks: bool) -> (b: Self)
        ensures
            b.files == self.files,
            b.force == self.force,
            b.follow_symlinks == follow_symlinks,
            b.hard_link == self.hard_link,
    {
        Self { follow_symlinks, ..self }
    }

    /// Sets whether non-directories are hard-linked.
    pub fn hard_link(self, hard_link: bool) -> (b: Self)
        ensures
            b.files == self.files,
            b.force == self.force,
            b.follow_symlinks == self.follow_symlinks,
            b.hard_link == hard_link,
    {
        Self { hard_link, ..self }
    }

    /// Finishes the builder.
    pub fn build(self) -> (op: CopyOp)
        ensures
            op.files == self.files,
            op.force == self.force,
            op.follow_symlinks == self.follow_symlinks,
            op.hard_link == self.hard_link,
    {
        let Self { files, force, follow_symlinks, hard_link } = self;
        CopyOp { files, force, follow_symlinks, hard_link }
    }
}

/// Pre-flight of one copy destination. `to_exists` is the outcome of a
/// symlink-stat of `to`, so a dangling symlink counts as existing. With
/// `force` unset, an existing destination fails with `AlreadyExists`;
/// nothing else fails here.
pub fn preflight_copy_root(to: &Vec<u8>, to_exists: bool, force: bool) -> (r: Option<Error>)
    ensures
        r is Some <==> (to_exists && !force),
        r matches Some(e) ==> (e matches Error::AlreadyExists { file } && file@ == to@),
{
    if to_exists && !force {
        Some(Error::AlreadyExists { file: clone_bytes(to) })
    } else {
        None
    }
}

/// What to do with one copy root once `from`'s kind is known (statted with
/// or without following, per `follow_symlinks`).
#[derive(Debug)]
pub enum CopyRootPlan {
    /// A directory: create the destination with the source's mode
    /// (tolerating `EEXIST` under `force`), record the destination's inode
    /// for cycle prevention, and enqueue the pair.
    EnqueueDir,
    /// A symlink, not hard-linking: read the link and recreate it at `to`.
    RecreateSymlink,
    /// Hard-linking a non-directory: remove any existing `to`, then link.
    HardLinkRoot,
    /// Anything else: copy the file contents to `to`.
    CopyContents,
}

/// Plans one copy root from the kind of its source.
pub fn plan_copy_root(kind: FileKind, hard_link: bool) -> (r: CopyRootPlan)
    ensures
        kind is Directory ==> r is EnqueueDir,
        !(kind is Directory) && hard_link ==> r is HardLinkRoot,
        kind is Symlink && !hard_link ==> r is RecreateSymlink,
        !(kind is Directory) && !(kind is Symlink) && !hard_link ==> r is CopyContents,
{
    match kind {
        FileKind::Directory => CopyRootPlan::EnqueueDir,
        FileKind::Symlink => {
            if hard_link {
                CopyRootPlan::HardLinkRoot
            } else {
                CopyRootPlan::RecreateSymlink
            }
        },
        _ => {
            if hard_link {
                CopyRootPlan::HardLinkRoot
            } else {
                CopyRootPlan::CopyContents
            }
        },
    }
}

/// Whether an entry needs an extra `statx` before it can be dispatched:
/// the directory stream did not report its kind, or symlinks are being
/// followed and it is one.
pub fn needs_stat(kind: FileKind, follow_symlinks: bool) -> (r: bool)
    ensures
        r <==> (kind is Unknown || (follow_symlinks && kind is Symlink)),
{
    match kind {
        FileKind::Unknown => true,
        FileKind::Symlink => follow_symlinks,
        _ => false,
    }
}

/// The skip rule of the copy walk: `.` and `..`, and the entry whose inode
/// is the destination root — the destination itself encountered inside the
/// source.
pub open spec fn skip_copy_entry(name: Seq<u8>, ino: u64, root_to_inode: u64) -> bool {
    ino == root_to_inode || dot_name(name)
}

/// What to do with one directory entry during the copy walk.
#[derive(Debug)]
pub enum CopyEntryPlan {
    /// `.`, `..`, or the destination root met inside the source.
    Skip,
    /// A subdirectory: create `to_child` with the source's mode
    /// (tolerating `EEXIST`), then enqueue the pair as a child task.
    Recurse { from_child: NulPath, to_child: NulPath },
    /// A symlink, not hard-linking: read the link and recreate it under
    /// the destination handle.
    RecreateSymlink,
    /// Hard-linking a non-directory: remove any existing destination
    /// entry (tolerating its absence), then link.
    HardLink,
    /// A regular file: open both ends and copy in-kernel.
    RangeCopy,
    /// Any other leaf, or a regular file in a directory already known to
    /// cross devices: open both ends and copy byte-wise.
    ByteCopy,
}

/// Plans one directory entry of the copy walk. `kind` must already be
/// resolved (see [`needs_stat`]); `cross_device` is the walker's
/// per-directory flag that an in-kernel copy already failed across
/// devices.
pub fn plan_copy_entry(
    from: &NulPath,
    to: &NulPath,
    name: &Vec<u8>,
    ino: u64,
    root_to_inode: u64,
    kind: FileKind,
    hard_link: bool,
    cross_device: bool,
) -> (r: CopyEntryPlan)
    requires
        from.wf(),
        to.wf(),
        nul_free(name@),
        !(kind is Unknown),
    ensures
        r is Skip <==> skip_copy_entry(name@, ino, root_to_inode),
        !skip_copy_entry(name@, ino, root_to_inode) ==> {
            &&& kind is Directory ==> (r matches CopyEntryPlan::Recurse { from_child, to_child }
                && from_child.wf() && to_child.wf() && from_child@ == from.body()
                + seq![SEPARATOR] + name@ + seq![0u8] && to_child@ == to.body() + seq![SEPARATOR]
                + name@ + seq![0u8])
            &&& !(kind is Directory) && hard_link ==> r is HardLink
            &&& kind is Symlink && !hard_link ==> r is RecreateSymlink
            &&& kind is Regular && !hard_link && !cross_device ==> r is RangeCopy
            &&& kind is Regular && !hard_link && cross_device ==> r is ByteCopy
            &&& kind is Other && !hard_link ==> r is ByteCopy
        },
{
    if ino == root_to_inode {
        return CopyEntryPlan::Skip;
    }
    let n = name.len();
    if n == 1 && name[0] == DOT {
        proof {
            assert(name@ =~= seq![DOT]);
        }
        return CopyEntryPlan::Skip;
    }
    if n == 2 && name[0] == DOT && name[1] == DOT {
        proof {
            assert(name@ =~= seq![DOT, DOT]);
        }
        return CopyEntryPlan::Skip;
    }
    proof {
        if name@ == seq![DOT] {
            assert(name@.len() == 1 && name@[0] == DOT);
        }
        if name@ == seq![DOT, DOT] {
            assert(name@.len() == 2 && name@[0] == DOT && name@[1]
                == DOT);
        }
    }
    match kind {
        FileKind::Directory => CopyEntryPlan::Recurse {
            from_child: concat(from, name),
            to_child: concat(to, name),
        },
        FileKind::Symlink => {
            if hard_link {
                CopyEntryPlan::HardLink
            } else {
                CopyEntryPlan::RecreateSymlink
            }
        },
        FileKind::Regular => {
            if hard_link {
                CopyEntryPlan::HardLink
            } else if cross_device {
                CopyEntryPlan::ByteCopy
            } else {
                CopyEntryPlan::RangeCopy
            }
        },
        _ => {
            if hard_link {
                CopyEntryPlan::HardLink
            } else {
                CopyEntryPlan::ByteCopy
            }
        },
    }
}

/// The byte budget the engine asks of one in-kernel copy: half the address
/// space minus what this file has already received, so the running total
/// can never overflow.
pub fn next_chunk(total: usize) -> (n: usize)
    requires
        total <= usize::MAX / 2,
    ensures
        n == usize::MAX / 2 - total,
{
    usize::MAX / 2 - total
}

/// The state of the regular-file copy loop after one in-kernel copy.
#[derive(Debug)]
pub enum CopyStep {
    /// The file is fully copied: the kernel returned zero bytes, or the
    /// running total reached the size captured before the loop.
    Done,
    /// More remains; carry the new running total into the next round.
    Continue { total: usize },
}

/// Advances the regular-file copy loop: `total` bytes were already copied,
/// the file's size was `size` when captured, and the kernel just copied
/// `copied` more. Stopping on a zero-byte return avoids unbounded spinning
/// on sparse files; stopping at `size` avoids kernel quirks where the copy
/// returns early.
pub fn copy_step(total: usize, size: usize, copied: usize) -> (r: CopyStep)
    requires
        total <= usize::MAX / 2,
        copied <= usize::MAX / 2 - total,
    ensures
        r is Done <==> (copied == 0 || total + copied == size),
        r matches CopyStep::Continue { total: t } ==> t == total + copied,
{
    if copied == 0 {
        return CopyStep::Done;
    }
    let new_total = total + copied;
    if new_total == size {
        CopyStep::Done
    } else {
        CopyStep::Continue { total: new_total }
    }
}

/// Whether a failed in-kernel copy means the two ends live on different
/// devices and the file must be copied byte-wise instead: the error is
/// `EXDEV` and nothing was copied yet.
pub fn fall_back_to_byte_copy(errno_is_xdev: bool, total: usize) -> (r: bool)
    ensures
        r <==> (errno_is_xdev && total == 0),
{
    errno_is_xdev && total == 0
}

} // verus!

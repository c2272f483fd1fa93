//! A mathematical model of the filesystem trees the two operations walk,
//! and the laws they obey over it.
//!
//! A directory's contents are a map from entry name to subtree. The effects
//! of the operations on this model — creating a tree, removing a root,
//! merging a copied source into an existing destination — are spec
//! functions, and the laws below are proved of them for every tree shape.

use vstd::prelude::*;

verus! {

/// A filesystem tree as the operations see it: regular files with their
/// bytes and mode, symlinks with their target, directories with their mode
/// and named entries.
pub enum FsTree {
    /// A regular file.
    Regular { content: Seq<u8>, mode: u32 },
    /// A symbolic link.
    Symlink { target: Seq<u8> },
    /// A directory.
    Dir { mode: u32, entries: Map<Seq<u8>, FsTree> },
}

/// Holds when `dst` is a tree the copy walk can leave for the source tree
/// `src` when symlinks are copied as symlinks: the per-entry dispatch
/// recreates a subdirectory with the source's mode and recurses, recreates
/// a symlink with the same target, and recreates a regular file with the
/// same bytes and mode.
pub open spec fn tree_copies(src: FsTree, dst: FsTree) -> bool
    decreases src,
{
    match src {
        FsTree::Regular { content, mode } => dst == FsTree::Regular { content, mode },
        FsTree::Symlink { target } => dst == FsTree::Symlink { target },
        FsTree::Dir { mode, entries } => match dst {
            FsTree::Dir { mode: dst_mode, entries: dst_entries } => {
                &&& dst_mode == mode
                &&& dst_entries.dom() == entries.dom()
                &&& forall|name: Seq<u8>| #[trigger]
                    entries.dom().contains(name) ==> tree_copies(entries[name], dst_entries[name])
            },
            _ => false,
        },
    }
}

/// The model effect of creating a tree named `name` under a directory.
pub open spec fn create_applied(
    dir: Map<Seq<u8>, FsTree>,
    name: Seq<u8>,
    shape: FsTree,
) -> Map<Seq<u8>, FsTree> {
    dir.insert(name, shape)
}

/// The model effect of removing the root `name` from the directory that
/// holds it: the entry and everything below it is gone.
pub open spec fn remove_applied(dir: Map<Seq<u8>, FsTree>, name: Seq<u8>) -> Map<Seq<u8>, FsTree> {
    dir.remove(name)
}

/// The model effect of copying into an existing destination directory under
/// `force`: entries the copy produced replace equally named ones, the rest
/// of the destination is merged with them.
pub open spec fn merge_applied(
    dst: Map<Seq<u8>, FsTree>,
    produced: Map<Seq<u8>, FsTree>,
) -> Map<Seq<u8>, FsTree> {
    dst.union_prefer_right(produced)
}

/// Remove is the inverse of create: creating a tree of any shape under a
/// directory it is new to and then removing that root leaves the directory
/// as it was — the parent itself and every sibling intact.
pub proof fn lemma_remove_inverse_of_create(
    dir: Map<Seq<u8>, FsTree>,
    name: Seq<u8>,
    shape: FsTree,
)
    requires
        !dir.dom().contains(name),
    ensures
        remove_applied(create_applied(dir, name, shape), name) == dir,
{
    assert(remove_applied(create_applied(dir, name, shape), name) =~= dir);
}

/// A copy is structure-preserving: whatever tree the per-entry dispatch
/// leaves for a source is the source itself — the same names, the same
/// directory nesting, the same regular-file bytes, the same symlink
/// targets, the same modes.
pub proof fn lemma_copy_preserves_structure(src: FsTree, dst: FsTree)
    requires
        tree_copies(src, dst),
    ensures
        dst == src,
    decreases src,
{
    match src {
        FsTree::Regular { content, mode } => {},
        FsTree::Symlink { target } => {},
        FsTree::Dir { mode, entries } => {
            match dst {
                FsTree::Dir { mode: dst_mode, entries: dst_entries } => {
                    assert forall|name: Seq<u8>| #[trigger]
                        entries.dom().contains(name) implies dst_entries[name]
                        == entries[name] by {
                        lemma_copy_preserves_structure(entries[name], dst_entries[name]);
                    }
                    assert(dst_entries =~= entries);
                },
                _ => {},
            }
        },
    }
}

/// Cycle prevention: copying a directory `X` to a destination `sub` inside
/// `X` itself produces, at `X/sub`, exactly the original contents of `X`
/// without the destination entry. `produced` is what the walk left inside
/// the destination: one copied entry per source entry, except the one whose
/// inode is the destination root, which the walk skips.
pub proof fn lemma_cycle_prevention(
    entries: Map<Seq<u8>, FsTree>,
    sub: Seq<u8>,
    produced: Map<Seq<u8>, FsTree>,
    mode: u32,
)
    requires
        produced.dom() == remove_applied(entries, sub).dom(),
        forall|name: Seq<u8>| #[trigger]
            produced.dom().contains(name) ==> tree_copies(
                remove_applied(entries, sub)[name],
                produced[name],
            ),
    ensures
        create_applied(entries, sub, FsTree::Dir { mode, entries: produced })[sub] == (
        FsTree::Dir { mode, entries: remove_applied(entries, sub) }),
{
    assert forall|name: Seq<u8>| #[trigger]
        produced.dom().contains(name) implies produced[name] == remove_applied(entries, sub).index(
        name,
    ) by {
        lemma_copy_preserves_structure(remove_applied(entries, sub)[name], produced[name]);
    }
    assert(produced =~= remove_applied(entries, sub));
}

/// Finishing twice, copy side: merging a copied source into a destination
/// that already received that same copy changes nothing more — the re-run
/// is a no-op.
pub proof fn lemma_copy_rerun_is_noop(dst: Map<Seq<u8>, FsTree>, produced: Map<Seq<u8>, FsTree>)
    ensures
        merge_applied(merge_applied(dst, produced), produced) == merge_applied(dst, produced),
{
    assert(merge_applied(merge_applied(dst, produced), produced) =~= merge_applied(dst, produced));
}

/// Finishing twice, remove side: once a root is removed it is absent, so
/// removing it again changes nothing — and, absent, a re-run under `force`
/// plans no work at all.
pub proof fn lemma_remove_rerun_is_noop(dir: Map<Seq<u8>, FsTree>, name: Seq<u8>)
    ensures
        remove_applied(remove_applied(dir, name), name) == remove_applied(dir, name),
        !remove_applied(dir, name).dom().contains(name),
{
    assert(remove_applied(remove_applied(dir, name), name) =~= remove_applied(dir, name));
}

} // verus!

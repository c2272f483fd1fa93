//! The remove operation: pre-flight validation of user-supplied roots, the
//! per-entry dispatch of the directory walk, and the deferred-unlink chain.
//!
//! The engine that executes these plans walks each directory with one open
//! handle, unlinks non-directories in place, enqueues a child task per
//! subdirectory, and unlinks each directory only once all its contents are
//! gone — bottom-up along the parent chain modelled by [`TreeNode`].

use vstd::prelude::*;

use crate::path::{
    DOT, NulPath, SEPARATOR, clone_bytes, concat, is_strict_prefix, nul_free,
    spec_strip_trailing_separator, strip_trailing_separator,
};
use crate::{Error, FileKind};

verus! {

/// The platform limit on a NUL-terminated path, in bytes.
pub const PATH_MAX: usize = 4096;

/// A remove operation: the roots to delete and its two flags.
#[derive(Debug)]
pub struct RemoveOp {
    /// The files and/or directories to be removed, as raw path bytes.
    pub files: Vec<Vec<u8>>,
    /// Ignore non-existent roots instead of failing.
    pub force: bool,
    /// Refuse to delete `/`.
    pub preserve_root: bool,
}

/// Builds a [`RemoveOp`]; by default nothing is forced and the root is
/// preserved.
#[derive(Debug)]
pub struct RemoveOpBuilder {
    /// The roots gathered so far.
    pub files: Vec<Vec<u8>>,
    /// Whether non-existent roots are ignored.
    pub force: bool,
    /// Whether `/` is protected.
    pub preserve_root: bool,
}

impl RemoveOp {
    /// A builder with the defaults `force = false`, `preserve_root = true`.
    pub fn builder() -> (b: RemoveOpBuilder)
        ensures
            b.files@ == Seq::<Vec<u8>>::empty(),
            !b.force,
            b.preserve_root,
    {
        RemoveOpBuilder { files: Vec::new(), force: false, preserve_root: true }
    }
}

impl RemoveOpBuilder {
    /// Sets the roots to remove.
    pub fn files(self, files: Vec<Vec<u8>>) -> (b: Self)
        ensures
            b.files == files,
            b.force == self.force,
            b.preserve_root == self.preserve_root,
    {
        Self { files, ..self }
    }

    /// Sets whether non-existent roots are ignored.
    pub fn force(self, force: bool) -> (b: Self)
        ensures
            b.files == self.files,
            b.force == force,
            b.preserve_root == self.preserve_root,
    {
        Self { force, ..self }
    }

    /// Sets whether `/` is protected.
    pub fn preserve_root(self, preserve_root: bool) -> (b: Self)
        ensures
            b.files == self.files,
            b.force == self.force,
            b.preserve_root == preserve_root,
    {
        Self { preserve_root, ..self }
    }

    /// Finishes the builder.
    pub fn build(self) -> (op: RemoveOp)
        ensures
            op.files == self.files,
            op.force == self.force,
            op.preserve_root == self.preserve_root,
    {
        let Self { files, force, preserve_root } = self;
        RemoveOp { files, force, preserve_root }
    }
}

/// Assembles the remove operation for a set of command-line arguments.
pub fn remove(files: Vec<Vec<u8>>, force: bool, preserve_root: bool) -> (op: RemoveOp)
    ensures
        op.files == files,
        op.force == force,
        op.preserve_root == preserve_root,
{
    RemoveOp::builder().files(files).force(force).preserve_root(preserve_root).build()
}

/// What to do with one removal root once its kind is known.
#[derive(Debug)]
pub enum RemoveRootPlan {
    /// The root does not exist and `force` is set: nothing to do.
    Skip,
    /// The root is not a directory: unlink it directly.
    UnlinkRoot,
    /// The root is a directory: hand it to the walk engine.
    EnqueueDir,
}

/// Pre-flight of one removal root, before any syscall: strips a single
/// trailing separator and enforces `preserve_root`. Fails with
/// `PreserveRoot` exactly when the stripped path is `/` and the flag is
/// set; otherwise returns the stripped path.
pub fn preflight_remove_root(path: Vec<u8>, preserve_root: bool) -> (r: Result<Vec<u8>, Error>)
    ensures
        r is Err <==> preserve_root && spec_strip_trailing_separator(path@) == seq![SEPARATOR],
        r matches Err(e) ==> e is PreserveRoot,
        r matches Ok(p) ==> p@ == spec_strip_trailing_separator(path@),
{
    let stripped = strip_trailing_separator(path);
    if preserve_root && stripped.len() == 1 && stripped[0] == SEPARATOR {
        proof {
            assert(stripped@ =~= seq![SEPARATOR]);
        }
        return Err(Error::PreserveRoot);
    }
    proof {
        if stripped@ == seq![SEPARATOR] {
            assert(stripped@.len() == 1 && stripped@[0] == SEPARATOR);
        }
    }
    Ok(stripped)
}

/// Plans one removal root from the outcome of its (symlink-following-free)
/// stat: a missing root is skipped under `force` and reported as `NotFound`
/// otherwise; a directory goes to the engine; anything else — a regular
/// file, a symlink, a special file — is unlinked directly.
pub fn plan_remove_root(stripped: &Vec<u8>, force: bool, kind: Option<FileKind>) -> (r: Result<
    RemoveRootPlan,
    Error,
>)
    ensures
        kind is None && force ==> (r matches Ok(p) && p is Skip),
        kind is None && !force ==> (r matches Err(e) && e matches Error::NotFound { file }
            && file@ == stripped@),
        (kind matches Some(k) && k is Directory) ==> (r matches Ok(p) && p is EnqueueDir),
        (kind matches Some(k) && !(k is Directory)) ==> (r matches Ok(p) && p is UnlinkRoot),
{
    match kind {
        None => {
            if force {
                Ok(RemoveRootPlan::Skip)
            } else {
                Err(Error::NotFound { file: clone_bytes(stripped) })
            }
        },
        Some(FileKind::Directory) => Ok(RemoveRootPlan::EnqueueDir),
        Some(_) => Ok(RemoveRootPlan::UnlinkRoot),
    }
}

/// Holds of the two entry names every directory stream reports and every
/// walk skips.
pub open spec fn dot_name(name: Seq<u8>) -> bool {
    name == seq![DOT] || name == seq![DOT, DOT]
}

/// What to do with one directory entry during the remove walk.
#[derive(Debug)]
pub enum RemoveEntryPlan {
    /// `.` or `..`: not an entry of its own.
    Skip,
    /// Not a directory: unlink it in place through the parent's handle.
    UnlinkFile,
    /// A subdirectory whose path would exceed [`PATH_MAX`]: remove it via
    /// the scoped current-directory fallback instead of a child task.
    LongPathFallback,
    /// A subdirectory: the child task to enqueue.
    Recurse { child: NulPath },
}

/// Plans one directory entry of the remove walk. `kind` must already be
/// resolved: an entry the stream reports as unknown is statted first. `.`
/// and `..` are skipped; non-directories are unlinked in place (when the
/// filesystem misreported the kind and the unlink fails with `EISDIR`,
/// plan again with `Directory`); a subdirectory becomes a child task
/// unless the parent's stored path plus the name would exceed
/// [`PATH_MAX`] bytes, in which case the fallback is used.
pub fn plan_remove_entry(parent: &NulPath, name: &Vec<u8>, kind: FileKind) -> (r: RemoveEntryPlan)
    requires
        parent.wf(),
        nul_free(name@),
        !(kind is Unknown),
    ensures
        r is Skip <==> dot_name(name@),
        !dot_name(name@) && !(kind is Directory) ==> r is UnlinkFile,
        !dot_name(name@) && kind is Directory && parent@.len() + name@.len() > PATH_MAX ==> r
            is LongPathFallback,
        !dot_name(name@) && kind is Directory && parent@.len() + name@.len() <= PATH_MAX ==> (
        r matches RemoveEntryPlan::Recurse { child } && child.wf() && child@ == parent.body()
            + seq![SEPARATOR] + name@ + seq![0u8]),
{
    let n = name.len();
    if n == 1 && name[0] == DOT {
        proof {
            assert(name@ =~= seq![DOT]);
        }
        return RemoveEntryPlan::Skip;
    }
    if n == 2 && name[0] == DOT && name[1] == DOT {
        proof {
            assert(name@ =~= seq![DOT, DOT]);
        }
        return RemoveEntryPlan::Skip;
    }
    proof {
        if name@ == seq![DOT] {
            assert(name@.len() == 1 && name@[0] == DOT);
        }
        if name@ == seq![DOT, DOT] {
            assert(name@.len() == 2 && name@[0] == DOT && name@[1] == DOT);
        }
    }
    match kind {
        FileKind::Directory => {
            let overlong = n >= PATH_MAX || parent.len() > PATH_MAX - n;
            if overlong {
                RemoveEntryPlan::LongPathFallback
            } else {
                RemoveEntryPlan::Recurse { child: concat(parent, name) }
            }
        },
        _ => RemoveEntryPlan::UnlinkFile,
    }
}

/// A unit of directory work: the directory's NUL-terminated path and an
/// optional back-pointer to the parent whose contents are still being
/// processed. The chain from a leaf to the operation root is the order in
/// which the directories must be unlinked once they are empty.
#[derive(Debug)]
pub struct TreeNode {
    /// The directory's path, usable directly by `*at` syscalls.
    pub path: NulPath,
    /// The parent directory, absent for an operation root.
    pub parent: Option<Box<TreeNode>>,
}

impl TreeNode {
    /// Every path on the chain is well-formed, and each node's path names
    /// an entry of its parent.
    pub open spec fn wf(self) -> bool
        decreases self,
    {
        &&& self.path.wf()
        &&& match self.parent {
            None => true,
            Some(p) => p.wf() && (exists|name: Seq<u8>|
                self.path@ == p.path.body() + seq![SEPARATOR] + name + seq![0u8]),
        }
    }

    /// The unlink order: this directory first, the operation root last.
    pub open spec fn chain(self) -> Seq<Seq<u8>>
        decreases self,
    {
        match self.parent {
            None => seq![self.path@],
            Some(p) => seq![self.path@] + p.chain(),
        }
    }

    /// A root task, with no parent.
    pub fn root(path: NulPath) -> (node: TreeNode)
        requires
            path.wf(),
        ensures
            node.wf(),
            node.chain() == seq![path@],
    {
        TreeNode { path, parent: None }
    }

    /// The child task for entry `name` of this directory: its path is
    /// `concat(path, name)` and its parent back-pointer is this node.
    pub fn child(self, name: &Vec<u8>) -> (node: TreeNode)
        requires
            self.wf(),
            nul_free(name@),
        ensures
            node.wf(),
            node.chain() == seq![self.path.body() + seq![SEPARATOR] + name@ + seq![0u8]]
                + self.chain(),
    {
        let path = concat(&self.path, name);
        TreeNode { path, parent: Some(Box::new(self)) }
    }
}

/// The unlink order is strictly bottom-up: along the chain, every
/// directory comes before its parent, whose path (terminator aside) is a
/// proper prefix of its own — no directory is unlinked while a directory
/// below it may still hold contents.
pub proof fn lemma_chain_is_bottom_up(node: TreeNode)
    requires
        node.wf(),
    ensures
        forall|i: int|
            0 <= i < node.chain().len() - 1 ==> is_strict_prefix(
                (#[trigger] node.chain()[i + 1]).drop_last(),
                node.chain()[i].drop_last(),
            ),
    decreases node,
{
    match node.parent {
        None => {},
        Some(p) => {
            lemma_chain_is_bottom_up(*p);
            let c = node.chain();
            let pc = p.chain();
            assert forall|i: int| 0 <= i < c.len() - 1 implies is_strict_prefix(
                (#[trigger] c[i + 1]).drop_last(),
                c[i].drop_last(),
            ) by {
                if i == 0 {
                    let name = choose|name: Seq<u8>|
                        node.path@ == p.path.body() + seq![SEPARATOR] + name + seq![0u8];
                    assert(node.path@.drop_last() =~= p.path.body() + seq![SEPARATOR] + name);
                    assert(node.path@.drop_last().take(p.path.body().len() as int)
                        =~= p.path.body());
                    assert(c[1] == pc[0] && pc[0] == p.path@);
                    assert(is_strict_prefix(p.path@.drop_last(), node.path@.drop_last()));
                } else {
                    assert(c[i] == pc[i - 1] && c[i + 1] == pc[i]);
                    assert(is_strict_prefix(pc[i - 1 + 1].drop_last(), pc[i - 1].drop_last()));
                }
            }
        },
    }
}

/// Flattens a finished task's parent chain into the deferred unlink order:
/// the directory itself first, the operation root last. The engine unlinks
/// along this order, stopping at the first ancestor that still has contents
/// in flight.
pub fn unlink_chain(node: TreeNode) -> (r: Vec<NulPath>)
    requires
        node.wf(),
    ensures
        r@.map_values(|p: NulPath| p@) == node.chain(),
        forall|i: int| 0 <= i < r@.len() ==> (#[trigger] r@[i]).wf(),
    decreases node,
{
    match node.parent {
        None => {
            let mut out: Vec<NulPath> = Vec::new();
            out.push(node.path);
            proof {
                assert(out@.map_values(|p: NulPath| p@) =~= seq![out@[0]@]);
            }
            out
        },
        Some(parent) => {
            let mut rest = unlink_chain(*parent);
            rest.insert(0, node.path);
            proof {
                assert(rest@.map_values(|p: NulPath| p@) =~= node.chain());
            }
            rest
        },
    }
}

} // verus!

//! A verified core for a pair of high-performance filesystem utilities that
//! recursively copy and remove directory trees.
//!
//! The crate holds the decision logic of the two operations: NUL-terminated
//! byte-path arithmetic, the error taxonomy, the pre-flight validation of
//! user-supplied roots, the per-entry dispatch of the parallel directory
//! walk, the accounting of the in-kernel file-copy loop, and the worker
//! spawning policy. Every function carries a contract and is verified.
//!
//! The syscalls themselves (`openat`, `unlinkat`, `mkdirat`, …), the worker
//! threads and the task channel live outside the verified core: they consume
//! the plans produced here and hand back plain values (file kinds, inode
//! numbers, errno codes).

use vstd::prelude::*;

pub mod cli;
pub mod copy;
pub mod fs_model;
pub mod ops;
pub mod path;
pub mod remove;
pub mod sched;

verus! {

/// The error taxonomy of both operations.
///
/// `Io` carries the raw OS error code (when one is known) together with a
/// context string describing the attempted action. The remaining variants
/// are pre-flight or engine-level conditions.
#[derive(Debug)]
pub enum Error {
    /// An I/O error occurred; `code` is the raw errno value when known.
    Io { code: Option<i32>, context: String },
    /// An attempt was made to delete `/`.
    PreserveRoot,
    /// A worker thread panicked or could not be joined.
    Join,
    /// A path contained an interior NUL byte.
    BadPath,
    /// The copy destination already exists.
    AlreadyExists { file: Vec<u8> },
    /// A removal root does not exist.
    NotFound { file: Vec<u8> },
    /// An engine invariant was broken; never expected in practice.
    Internal,
}

/// Tagged classification of a directory entry, as a directory stream or a
/// `statx` call reports it. `Unknown` means the filesystem did not say and
/// an extra `statx` is needed.
#[derive(Clone, Copy, Debug, PartialEq, Eq, Structural)]
pub enum FileKind {
    Unknown,
    Directory,
    Symlink,
    Regular,
    Other,
}

/// Relies on `rustix::io::Errno`: an errno value returned by a failed
/// syscall, stored by the crate in negated form in `-4095..0`.
#[verifier::external_type_specification]
#[verifier::external_body]
pub struct ExErrno(rustix::io::Errno);

/// Relies on `rustix::io::Errno::raw_os_error`: extracts the raw OS error
/// number. The crate stores error values in `-4095..0` and negates on the
/// way out, so the result is always in `1..=4095`.
#[verifier::external_body]
fn errno_code(errno: rustix::io::Errno) -> (code: i32)
    ensures
        1 <= code <= 4095,
{
    errno.raw_os_error()
}

impl Error {
    /// Builds the `Io` error for a failed syscall, as every worker does:
    /// the raw errno code plus a description of the attempted action.
    pub fn from_errno(errno: rustix::io::Errno, context: String) -> (r: Error)
        ensures
            r matches Error::Io { code, context: c } && c == context && (code matches Some(v)
                && 1 <= v <= 4095),
    {
        let code = errno_code(errno);
        Error::Io { code: Some(code), context }
    }
}

} // verus!

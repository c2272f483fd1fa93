//! The abstraction through which the public operations reach a platform
//! engine.

use vstd::prelude::*;

use crate::Error;

verus! {

/// One platform engine for one operation: `run` dispatches a unit of
/// directory work — a root path for remove, a `(from, to)` pair for copy —
/// and `finish` awaits the engine and returns any accumulated error.
///
/// Implementations live with the platform code: the parallel walk engine,
/// and a portable data-parallel fallback.
pub trait DirectoryOp<T> {
    /// Enqueues one unit of directory work.
    fn run(&self, dir: T) -> Result<(), Error>;

    /// Awaits the engine and returns any accumulated error.
    fn finish(self) -> Result<(), Error>;
}

} // verus!

//! Scheduler decisions: when the coordinator spawns another worker, and the
//! state machine every directory worker follows.
//!
//! The engine runs one coordinator thread plus dynamically spawned workers;
//! no thread is spawned unless the task channel currently holds more work,
//! and the total never exceeds the parallelism budget.

use vstd::prelude::*;

verus! {

/// The coordinator's worker-spawning budget: up to `cap` workers beside the
/// coordinator itself.
#[derive(Debug)]
pub struct SpawnPolicy {
    /// The most workers that may ever exist, `available_parallelism - 1`.
    pub cap: usize,
    /// How many have been spawned so far.
    pub spawned: usize,
}

impl SpawnPolicy {
    /// The budget is never exceeded.
    pub open spec fn wf(&self) -> bool {
        self.spawned <= self.cap
    }

    /// A fresh policy for a machine with `parallelism` usable threads: one
    /// is the coordinator, the rest are the worker budget.
    pub fn new(parallelism: usize) -> (p: SpawnPolicy)
        ensures
            p.wf(),
            p.spawned == 0,
            parallelism >= 1 ==> p.cap == parallelism - 1,
            parallelism == 0 ==> p.cap == 0,
    {
        let cap = if parallelism >= 1 {
            parallelism - 1
        } else {
            0
        };
        SpawnPolicy { cap, spawned: 0 }
    }

    /// Decides whether to spawn a worker now: only when the channel holds
    /// more work and the budget is not exhausted. The budget is spent one
    /// worker at a time and can never be exceeded.
    pub fn maybe_spawn(&mut self, queue_has_work: bool) -> (spawn: bool)
        requires
            old(self).wf(),
        ensures
            final(self).wf(),
            final(self).cap == old(self).cap,
            spawn <==> (queue_has_work && old(self).spawned < old(self).cap),
            spawn ==> final(self).spawned == old(self).spawned + 1,
            !spawn ==> final(self).spawned == old(self).spawned,
    {
        if queue_has_work && self.spawned < self.cap {
            self.spawned = self.spawned + 1;
            true
        } else {
            false
        }
    }
}

/// The states a directory worker passes through for one task.
#[derive(Clone, Copy, Debug, PartialEq, Eq, Structural)]
pub enum WorkerState {
    /// The task was taken off the channel; the directory is not open yet.
    Start,
    /// Entries are being streamed from the open directory handle.
    Streaming,
    /// The stream is exhausted; only the finishing step remains.
    Finalize,
    /// Terminal: the task is done, successfully or not.
    End,
}

/// What a worker observes while processing one task.
#[derive(Clone, Copy, Debug, PartialEq, Eq, Structural)]
pub enum WorkerEvent {
    /// The directory handle was opened.
    Opened,
    /// The stream produced a subdirectory entry.
    EntryDirectory,
    /// The stream produced a non-directory entry.
    EntryLeaf,
    /// The stream is exhausted.
    EndOfStream,
    /// A syscall failed.
    Failed,
}

/// What the worker does on a transition.
#[derive(Clone, Copy, Debug, PartialEq, Eq, Structural)]
pub enum WorkerAction {
    /// Nothing beyond moving on.
    Proceed,
    /// Enqueue a child task for a subdirectory.
    EnqueueChild,
    /// Apply the leaf action (unlink, or copy one file).
    LeafAction,
    /// Finish the task: for remove, unlink the emptied directories up the
    /// parent chain; for copy, simply return.
    FinishChain,
    /// Surface the error; the task is abandoned without rollback.
    Abort,
}

/// The worker state machine. An error in any state is terminal; partial
/// state is never rolled back.
pub fn worker_step(state: WorkerState, event: WorkerEvent) -> (r: (WorkerState, WorkerAction))
    ensures
        event is Failed && !(state is End) ==> r == (WorkerState::End, WorkerAction::Abort),
        state is Start && event is Opened ==> r == (WorkerState::Streaming, WorkerAction::Proceed),
        state is Streaming && event is EntryDirectory ==> r == (
            WorkerState::Streaming,
            WorkerAction::EnqueueChild,
        ),
        state is Streaming && event is EntryLeaf ==> r == (
            WorkerState::Streaming,
            WorkerAction::LeafAction,
        ),
        state is Streaming && event is EndOfStream ==> r == (
            WorkerState::Finalize,
            WorkerAction::Proceed,
        ),
        state is Finalize && !(event is Failed) ==> r == (
            WorkerState::End,
            WorkerAction::FinishChain,
        ),
        state is End ==> r == (WorkerState::End, WorkerAction::Proceed),
        r.0 is End || !(event is Failed),
{
    match (state, event) {
        (WorkerState::End, _) => (WorkerState::End, WorkerAction::Proceed),
        (_, WorkerEvent::Failed) => (WorkerState::End, WorkerAction::Abort),
        (WorkerState::Start, WorkerEvent::Opened) => (WorkerState::Streaming, WorkerAction::Proceed),
        (WorkerState::Streaming, WorkerEvent::EntryDirectory) => (
            WorkerState::Streaming,
            WorkerAction::EnqueueChild,
        ),
        (WorkerState::Streaming, WorkerEvent::EntryLeaf) => (
            WorkerState::Streaming,
            WorkerAction::LeafAction,
        ),
        (WorkerState::Streaming, WorkerEvent::EndOfStream) => (
            WorkerState::Finalize,
            WorkerAction::Proceed,
        ),
        (WorkerState::Finalize, _) => (WorkerState::End, WorkerAction::FinishChain),
        (WorkerState::Start, _) => (WorkerState::Start, WorkerAction::Proceed),
        (WorkerState::Streaming, WorkerEvent::Opened) => (
            WorkerState::Streaming,
            WorkerAction::Proceed,
        ),
    }
}

} // verus!

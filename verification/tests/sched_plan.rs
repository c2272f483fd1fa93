use fuc_engine::sched::{SpawnPolicy, WorkerAction, WorkerEvent, WorkerState, worker_step};

#[test]
fn spawn_budget_is_parallelism_minus_one() {
    let p = SpawnPolicy::new(4);
    assert_eq!(p.cap, 3);
    assert_eq!(p.spawned, 0);
    let p = SpawnPolicy::new(1);
    assert_eq!(p.cap, 0);
    let p = SpawnPolicy::new(0);
    assert_eq!(p.cap, 0);
}

#[test]
fn spawn_only_with_work_and_budget() {
    let mut p = SpawnPolicy::new(3);
    assert!(!p.maybe_spawn(false));
    assert!(p.maybe_spawn(true));
    assert!(p.maybe_spawn(true));
    assert!(!p.maybe_spawn(false));
    assert!(!p.maybe_spawn(true));
    assert!(!p.maybe_spawn(true));
    assert_eq!(p.spawned, 2);
    assert_eq!(p.cap, 2);
}

#[test]
fn worker_walks_the_state_machine() {
    let (s, a) = worker_step(WorkerState::Start, WorkerEvent::Opened);
    assert_eq!((s, a), (WorkerState::Streaming, WorkerAction::Proceed));

    let (s, a) = worker_step(s, WorkerEvent::EntryDirectory);
    assert_eq!((s, a), (WorkerState::Streaming, WorkerAction::EnqueueChild));

    let (s, a) = worker_step(s, WorkerEvent::EntryLeaf);
    assert_eq!((s, a), (WorkerState::Streaming, WorkerAction::LeafAction));

    let (s, a) = worker_step(s, WorkerEvent::EndOfStream);
    assert_eq!((s, a), (WorkerState::Finalize, WorkerAction::Proceed));

    let (s, a) = worker_step(s, WorkerEvent::EndOfStream);
    assert_eq!((s, a), (WorkerState::End, WorkerAction::FinishChain));
}

#[test]
fn any_failure_is_terminal() {
    for state in [WorkerState::Start, WorkerState::Streaming, WorkerState::Finalize] {
        let (s, a) = worker_step(state, WorkerEvent::Failed);
        assert_eq!((s, a), (WorkerState::End, WorkerAction::Abort));
    }
    let (s, a) = worker_step(WorkerState::End, WorkerEvent::Failed);
    assert_eq!((s, a), (WorkerState::End, WorkerAction::Proceed));
}

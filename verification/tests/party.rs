use aleph_node::crypto::{AuthorityId, NodeIndex, SessionId};
use aleph_node::party::authority::{
    FailingTask, FirstEvent, HoldingSubtask, Subtask, SubtaskCommon, Subtasks, Task,
};
use aleph_node::party::mocks::{
    MockChainState, MockNodeSessionManager, MockNodeSessionManagerError, MockSyncState,
};

fn subtasks() -> Subtasks<&'static str> {
    Subtasks::new("member", "aggregator", "refresher", "data store")
}

#[test]
fn subtasks_fail_unless_asked_to_exit() {
    let ended = subtasks().failed(FirstEvent::Exit);
    assert!(!ended.failed);
    assert_eq!(
        ended.to_stop,
        vec!["member", "refresher", "data store", "aggregator"]
    );
    for first in [
        Subtask::Member,
        Subtask::Aggregator,
        Subtask::Refresher,
        Subtask::DataStore,
    ] {
        let holding = HoldingSubtask::new(subtasks(), "held");
        let ended = holding.failed(FirstEvent::Stopped(first));
        assert!(ended.failed);
        assert_eq!(ended.to_stop.len(), 4);
        assert_eq!(ended.to_stop[0], "member");
    }
}

#[test]
fn tasks_know_their_node() {
    let task = Task::new("task", NodeIndex(3));
    assert_eq!(task.stopped(), NodeIndex(3));
    assert_eq!(task.stop(), "task");
    let common = SubtaskCommon {
        spawn_handle: "spawn",
        session_id: 7,
    };
    assert_eq!(common.clone().session_id, 7);
}

#[test]
fn mock_chains_are_where_they_are_told() {
    let mut chain = MockChainState::new();
    assert_eq!((chain.best_block_number(), chain.finalized_number()), (0, 0));
    chain.set_best_block(5);
    chain.set_finalized_block(3);
    assert_eq!((chain.best_block_number(), chain.finalized_number()), (5, 3));
    let mut sync = MockSyncState::new();
    assert!(!sync.is_major_syncing());
    sync.set_is_syncing(true);
    assert!(sync.is_major_syncing());
}

#[test]
fn mock_managers_find_their_node() {
    let id = |i: u8| AuthorityId { bytes: [i; 32] };
    let mut manager = MockNodeSessionManager::new();
    let authorities = vec![id(1), id(2), id(3), id(2)];
    assert_eq!(manager.node_idx(&authorities), None);
    manager.set_node_id(Some(id(2)));
    assert_eq!(manager.node_idx(&authorities), Some(NodeIndex(1)));
    manager.set_node_id(Some(id(4)));
    assert_eq!(manager.node_idx(&authorities), None);
    assert_eq!(
        manager.spawn_authority_task_for_session(SessionId(1), NodeIndex(2)),
        NodeIndex(2)
    );
    assert_eq!(manager.early_start_validator_session(SessionId(2)), Ok(()));
    assert_eq!(manager.start_nonvalidator_session(SessionId(3)), Ok(()));
    assert_eq!(manager.stop_session(SessionId(4)), Ok(()));
    let is = |session: u32, sessions: &std::collections::HashSet<u32>| {
        sessions.len() == 1 && sessions.contains(&session)
    };
    assert!(is(1, &manager.validator_session_started));
    assert!(is(2, &manager.session_early_started));
    assert!(is(3, &manager.nonvalidator_session_started));
    assert!(is(4, &manager.session_stopped));
    assert_eq!(
        MockNodeSessionManagerError.text(),
        "mock node session manager error"
    );
}

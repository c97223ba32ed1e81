//! Stand-ins for the chain and for the manager of sessions.

use std::collections::HashSet;

use vstd::prelude::*;

use crate::bytes::same_32_bytes;
use crate::crypto::{AuthorityId, NodeIndex, SessionId};

verus! {

broadcast use vstd::std_specs::hash::group_hash_axioms;

/// A chain that is at the blocks that it is told.
#[derive(Debug)]
pub struct MockChainState {
    pub best_block: u32,
    pub finalized_block: u32,
}

impl MockChainState {
    /// A chain at its genesis block.
    pub fn new() -> (chain: Self)
        ensures
            chain == (MockChainState { best_block: 0, finalized_block: 0 }),
    {
        MockChainState { best_block: 0, finalized_block: 0 }
    }

    /// Sets the best block.
    pub fn set_best_block(&mut self, best_block: u32)
        ensures
            *final(self) == (MockChainState { best_block, ..*old(self) }),
    {
        self.best_block = best_block;
    }

    /// Sets the last finalized block.
    pub fn set_finalized_block(&mut self, finalized_block: u32)
        ensures
            *final(self) == (MockChainState { finalized_block, ..*old(self) }),
    {
        self.finalized_block = finalized_block;
    }

    /// The best block.
    pub fn best_block_number(&self) -> (number: u32)
        ensures
            number == self.best_block,
    {
        self.best_block
    }

    /// The last finalized block.
    pub fn finalized_number(&self) -> (number: u32)
        ensures
            number == self.finalized_block,
    {
        self.finalized_block
    }
}

/// A synchronization that is under way or not, as it is told.
#[derive(Debug)]
pub struct MockSyncState {
    pub is_syncing: bool,
}

impl MockSyncState {
    /// No synchronization is under way.
    pub fn new() -> (sync: Self)
        ensures
            !sync.is_syncing,
    {
        MockSyncState { is_syncing: false }
    }

    /// Sets whether a synchronization is under way.
    pub fn set_is_syncing(&mut self, is_syncing: bool)
        ensures
            final(self).is_syncing == is_syncing,
    {
        self.is_syncing = is_syncing;
    }

    /// Whether a synchronization is under way.
    pub fn is_major_syncing(&self) -> (syncing: bool)
        ensures
            syncing == self.is_syncing,
    {
        self.is_syncing
    }
}

/// What a manager of sessions was asked for.
#[verifier::ext_equal]
pub struct SessionRecord {
    pub nonvalidator_started: Set<u32>,
    pub validator_started: Set<u32>,
    pub stopped: Set<u32>,
    pub early_started: Set<u32>,
    pub node_id: Option<AuthorityId>,
}

/// A manager of sessions that only records what it was asked for.
#[derive(Debug)]
pub struct MockNodeSessionManager {
    pub nonvalidator_session_started: HashSet<u32>,
    pub validator_session_started: HashSet<u32>,
    pub session_stopped: HashSet<u32>,
    pub session_early_started: HashSet<u32>,
    pub node_id: Option<AuthorityId>,
}

/// What a manager of sessions can fail with.
#[derive(Clone, Copy, Debug, PartialEq, Eq, Structural)]
pub struct MockNodeSessionManagerError;

impl MockNodeSessionManagerError {
    /// What went wrong, in words.
    pub fn text(&self) -> (text: &'static str)
        ensures
            text@ == "mock node session manager error"@,
    {
        "mock node session manager error"
    }
}

impl View for MockNodeSessionManager {
    type V = SessionRecord;

    open spec fn view(&self) -> SessionRecord {
        SessionRecord {
            nonvalidator_started: self.nonvalidator_session_started@,
            validator_started: self.validator_session_started@,
            stopped: self.session_stopped@,
            early_started: self.session_early_started@,
            node_id: self.node_id,
        }
    }
}

impl MockNodeSessionManager {
    /// A manager that was not asked for anything yet.
    pub fn new() -> (manager: Self)
        ensures
            manager@ == (SessionRecord {
                nonvalidator_started: Set::empty(),
                validator_started: Set::empty(),
                stopped: Set::empty(),
                early_started: Set::empty(),
                node_id: None,
            }),
    {
        MockNodeSessionManager {
            nonvalidator_session_started: HashSet::new(),
            validator_session_started: HashSet::new(),
            session_stopped: HashSet::new(),
            session_early_started: HashSet::new(),
            node_id: None,
        }
    }

    /// Sets which authority this node is, if any.
    pub fn set_node_id(&mut self, node_id: Option<AuthorityId>)
        ensures
            final(self)@ == (SessionRecord { node_id, ..old(self)@ }),
    {
        self.node_id = node_id;
    }

    /// Records that the authority task of a session was spawned. Returns the node
    /// that it is for.
    pub fn spawn_authority_task_for_session(
        &mut self,
        session: SessionId,
        node_id: NodeIndex,
    ) -> (node: NodeIndex)
        ensures
            final(self)@ == (SessionRecord {
                validator_started: old(self)@.validator_started.insert(session.0),
                ..old(self)@
            }),
            node == node_id,
    {
        self.validator_session_started.insert(session.0);
        node_id
    }

    /// Records that a session was started early as a validator.
    pub fn early_start_validator_session(&mut self, session: SessionId) -> (result: Result<
        (),
        MockNodeSessionManagerError,
    >)
        ensures
            final(self)@ == (SessionRecord {
                early_started: old(self)@.early_started.insert(session.0),
                ..old(self)@
            }),
            result is Ok,
    {
        self.session_early_started.insert(session.0);
        Ok(())
    }

    /// Records that a session was started without being a validator.
    pub fn start_nonvalidator_session(&mut self, session: SessionId) -> (result: Result<
        (),
        MockNodeSessionManagerError,
    >)
        ensures
            final(self)@ == (SessionRecord {
                nonvalidator_started: old(self)@.nonvalidator_started.insert(session.0),
                ..old(self)@
            }),
            result is Ok,
    {
        self.nonvalidator_session_started.insert(session.0);
        Ok(())
    }

    /// Records that a session was stopped.
    pub fn stop_session(&mut self, session: SessionId) -> (result: Result<
        (),
        MockNodeSessionManagerError,
    >)
        ensures
            final(self)@ == (SessionRecord {
                stopped: old(self)@.stopped.insert(session.0),
                ..old(self)@
            }),
            result is Ok,
    {
        self.session_stopped.insert(session.0);
        Ok(())
    }

    /// The first position of this node among the authorities, if it is one of
    /// them.
    pub fn node_idx(&self, authorities: &Vec<AuthorityId>) -> (index: Option<NodeIndex>)
        ensures
            match index {
                Some(index) => {
                    &&& self@.node_id matches Some(id)
                        && index.0 < authorities@.len() && authorities@[index.0 as int].bytes@
                        == id.bytes@ && forall|j: int|
                        0 <= j < index.0 ==> (#[trigger] authorities@[j]).bytes@ != id.bytes@
                },
                None => self@.node_id matches Some(id) ==> forall|j: int|
                    0 <= j < authorities@.len() ==> (#[trigger] authorities@[j]).bytes@ != id.bytes@,
            },
    {
        match &self.node_id {
            None => None,
            Some(id) => {
                let mut i: usize = 0;
                while i < authorities.len()
                    invariant
                        i <= authorities@.len(),
                        self@.node_id == Some(*id),
                        forall|j: int|
                            0 <= j < i ==> (#[trigger] authorities@[j]).bytes@ != id.bytes@,
                    decreases authorities@.len() - i,
                {
                    if same_32_bytes(&authorities[i].bytes, &id.bytes) {
                        return Some(NodeIndex(i));
                    }
                    i = i + 1;
                }
                None
            },
        }
    }
}

/// What a manager was asked for is all that it recorded.
pub proof fn records_are_all_that_was_asked_for(manager: MockNodeSessionManager)
    ensures
        manager@.nonvalidator_started == manager.nonvalidator_session_started@,
        manager@.validator_started == manager.validator_session_started@,
        manager@.stopped == manager.session_stopped@,
        manager@.early_started == manager.session_early_started@,
        manager@.node_id == manager.node_id,
{
}

} // verus!

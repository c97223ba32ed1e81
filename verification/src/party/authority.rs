//! The tasks of an authority in a session.

use vstd::prelude::*;

use crate::crypto::NodeIndex;

verus! {

/// A wrapper for running the authority task within a specific session.
#[derive(Debug)]
pub struct Task<T> {
    task: T,
    node_id: NodeIndex,
}

impl<T> Task<T> {
    /// The actual task.
    pub closed spec fn inner(self) -> T {
        self.task
    }

    /// The node that runs the task.
    pub closed spec fn node(self) -> NodeIndex {
        self.node_id
    }

    /// Create a new authority task. The handle should be the handle to the actual
    /// task.
    pub fn new(task: T, node_id: NodeIndex) -> (wrapper: Self)
        ensures
            wrapper.inner() == task,
            wrapper.node() == node_id,
    {
        Task { task, node_id }
    }

    /// The actual task, to be stopped.
    pub fn stop(self) -> (task: T)
        ensures
            task == self.inner(),
    {
        self.task
    }

    /// If the authority task stops for any reason, this returns the associated
    /// node index, which can be used to restart the task.
    pub fn stopped(&self) -> (node_id: NodeIndex)
        ensures
            node_id == self.node(),
    {
        self.node_id
    }
}

/// The subtasks required to participate in a session as an authority.
#[derive(Clone, Copy, Debug, PartialEq, Eq, Structural)]
pub enum Subtask {
    Member,
    Aggregator,
    Refresher,
    DataStore,
}

/// What ends the subtasks.
#[derive(Clone, Copy, Debug, PartialEq, Eq, Structural)]
pub enum FirstEvent {
    /// They were asked to exit.
    Exit,
    /// One of them stopped.
    Stopped(Subtask),
}

/// All the subtasks required to participate in a session as an authority.
#[derive(Debug)]
pub struct Subtasks<T> {
    pub member: T,
    pub aggregator: T,
    pub refresher: T,
    pub data_store: T,
}

/// What ending the subtasks comes to: whether they quit unexpectedly, and the
/// subtasks in the order in which they have to be stopped.
#[derive(Debug)]
pub struct Ended<T> {
    pub failed: bool,
    pub to_stop: Vec<T>,
}

/// The order in which subtasks are stopped. Both member and aggregator are
/// implicitly using the forwarder, so they should be forced to exit before it.
pub open spec fn stop_order<T>(subtasks: Subtasks<T>) -> Seq<T> {
    seq![subtasks.member, subtasks.refresher, subtasks.data_store, subtasks.aggregator]
}

/// Something that runs until it is asked to exit or fails.
pub trait FailingTask<T>: Sized {
    /// The subtasks in the order in which they have to be stopped.
    spec fn stop_order(self) -> Seq<T>;

    /// What it comes to that the task is done: whether it quit unexpectedly, and
    /// what has to be stopped.
    fn failed(self, first: FirstEvent) -> (ended: Ended<T>)
        ensures
            ended.failed == (first != FirstEvent::Exit),
            ended.to_stop@ == self.stop_order(),
    ;
}

impl<T> Subtasks<T> {
    /// Create the subtask collection by passing in all the tasks.
    pub fn new(member: T, aggregator: T, refresher: T, data_store: T) -> (subtasks: Self)
        ensures
            subtasks == (Subtasks { member, aggregator, refresher, data_store }),
    {
        Subtasks { member, aggregator, refresher, data_store }
    }

    fn stop(self) -> (to_stop: Vec<T>)
        ensures
            to_stop@ == stop_order(self),
    {
        let mut to_stop: Vec<T> = Vec::new();
        to_stop.push(self.member);
        to_stop.push(self.refresher);
        to_stop.push(self.data_store);
        to_stop.push(self.aggregator);
        proof {
            assert(to_stop@ =~= stop_order(self));
        }
        to_stop
    }
}

impl<T> FailingTask<T> for Subtasks<T> {
    open spec fn stop_order(self) -> Seq<T> {
        stop_order(self)
    }

    fn failed(self, first: FirstEvent) -> (ended: Ended<T>) {
        let failed: bool = match first {
            FirstEvent::Exit => false,
            FirstEvent::Stopped(_) => true,
        };
        Ended { failed, to_stop: self.stop() }
    }
}

/// A subtask together with something that is held as long as it runs.
#[derive(Debug)]
pub struct HoldingSubtask<ST, D> {
    pub subtask: ST,
    pub holder: D,
}

impl<ST, D> HoldingSubtask<ST, D> {
    /// Holds something while the subtask runs.
    pub fn new(subtask: ST, holder: D) -> (holding: Self)
        ensures
            holding == (HoldingSubtask { subtask, holder }),
    {
        HoldingSubtask { subtask, holder }
    }
}

impl<T, ST: FailingTask<T>, D> FailingTask<T> for HoldingSubtask<ST, D> {
    open spec fn stop_order(self) -> Seq<T> {
        self.subtask.stop_order()
    }

    fn failed(self, first: FirstEvent) -> (ended: Ended<T>) {
        self.subtask.failed(first)
    }
}

/// Common arguments for authority subtasks.
#[derive(Clone, Debug)]
pub struct SubtaskCommon<SpawnHandle> {
    pub spawn_handle: SpawnHandle,
    pub session_id: u32,
}

/// Every subtask is stopped, once: the member first, then the refresher and the
/// data store, and the aggregator last.
pub proof fn every_subtask_is_stopped<T>(subtasks: Subtasks<T>)
    ensures
        stop_order(subtasks).len() == 4,
        stop_order(subtasks)[0] == subtasks.member,
        stop_order(subtasks)[1] == subtasks.refresher,
        stop_order(subtasks)[2] == subtasks.data_store,
        stop_order(subtasks).last() == subtasks.aggregator,
        FailingTask::<T>::stop_order(subtasks) == stop_order(subtasks),
{
}

/// Holding something while a subtask runs changes nothing about how it is stopped.
pub proof fn holding_changes_nothing<T, D>(holding: HoldingSubtask<Subtasks<T>, D>)
    ensures
        FailingTask::<T>::stop_order(holding) == stop_order(holding.subtask),
{
}

} // verus!

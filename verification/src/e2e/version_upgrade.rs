//! Scenarios on changing the version of the consensus protocol.

use vstd::prelude::*;

verus! {

/// The version that is changed to by default.
pub const UPGRADE_TO_VERSION: u32 = 1;

/// The session in which the version is changed by default.
pub const UPGRADE_SESSION: u32 = 3;

/// How many sessions after the change finalization is looked at by default.
pub const UPGRADE_FINALIZATION_WAIT_SESSIONS: u32 = 3;

/// What a scenario is asked for.
#[derive(Clone, Copy, Debug, PartialEq, Eq, Structural)]
pub struct VersionUpgradeParams {
    pub upgrade_to_version: Option<u32>,
    pub upgrade_session: Option<u32>,
    pub upgrade_finalization_wait_sessions: Option<u32>,
}

impl VersionUpgradeParams {
    /// The version that is changed to.
    pub open spec fn version(self) -> u32 {
        match self.upgrade_to_version {
            Some(version) => version,
            None => UPGRADE_TO_VERSION,
        }
    }

    /// The session in which the version is changed.
    pub open spec fn session(self) -> u32 {
        match self.upgrade_session {
            Some(session) => session,
            None => UPGRADE_SESSION,
        }
    }

    /// How many sessions after the change finalization is looked at.
    pub open spec fn wait_sessions(self) -> u32 {
        match self.upgrade_finalization_wait_sessions {
            Some(sessions) => sessions,
            None => UPGRADE_FINALIZATION_WAIT_SESSIONS,
        }
    }
}

/// What a scenario does, in order.
#[derive(Clone, Copy, Debug, PartialEq, Eq, Structural)]
pub enum UpgradeStep {
    /// Waits until a block with at least this number is finalized.
    AwaitFinalized { block: u32 },
    /// Schedules the change.
    Schedule { version: u32, session: u32 },
    /// Waits until at least this session, and remembers its block.
    AwaitSession { session: u32 },
    /// Waits until the remembered block is finalized.
    AwaitRememberedFinalized,
    /// Reads the last finalized block, and has the verdict passed over it and the
    /// first block of this session.
    CheckFinalizationStopped { upgrade_session: u32 },
}

/// Schedules a version upgrade, awaits it, and checks that the node is still
/// finalizing after the planned session.
pub fn schedule_version_change(params: &VersionUpgradeParams) -> (steps: Vec<UpgradeStep>)
    requires
        params.session() + params.wait_sessions() <= u32::MAX,
        params.session() + 1 <= u32::MAX,
    ensures
        steps@ == seq![
            UpgradeStep::Schedule { version: params.version(), session: params.session() },
            UpgradeStep::AwaitSession { session: (params.session() + 1) as u32 },
            UpgradeStep::AwaitRememberedFinalized,
        ],
{
    let version: u32 = match params.upgrade_to_version {
        Some(version) => version,
        None => UPGRADE_TO_VERSION,
    };
    let session: u32 = match params.upgrade_session {
        Some(session) => session,
        None => UPGRADE_SESSION,
    };
    let mut steps: Vec<UpgradeStep> = Vec::new();
    steps.push(UpgradeStep::Schedule { version, session });
    steps.push(UpgradeStep::AwaitSession { session: session + 1 });
    steps.push(UpgradeStep::AwaitRememberedFinalized);
    proof {
        assert(steps@ =~= seq![
            UpgradeStep::Schedule { version: params.version(), session: params.session() },
            UpgradeStep::AwaitSession { session: (params.session() + 1) as u32 },
            UpgradeStep::AwaitRememberedFinalized,
        ]);
    }
    steps
}

/// Schedules a version upgrade that is supposed to fail, awaits it and some
/// sessions more, and checks that finalization stopped: that it is still behind
/// the session of the upgrade. It is up to the user of this scenario to ensure
/// that the version upgrade will actually break finalization.
pub fn schedule_doomed_version_change_and_verify_finalization_stopped(
    params: &VersionUpgradeParams,
) -> (steps: Vec<UpgradeStep>)
    requires
        params.session() + params.wait_sessions() <= u32::MAX,
    ensures
        steps@ == seq![
            UpgradeStep::AwaitFinalized { block: 1 },
            UpgradeStep::Schedule { version: params.version(), session: params.session() },
            UpgradeStep::AwaitSession {
                session: (params.session() + params.wait_sessions()) as u32,
            },
            UpgradeStep::CheckFinalizationStopped { upgrade_session: params.session() },
        ],
{
    let version: u32 = match params.upgrade_to_version {
        Some(version) => version,
        None => UPGRADE_TO_VERSION,
    };
    let session: u32 = match params.upgrade_session {
        Some(session) => session,
        None => UPGRADE_SESSION,
    };
    let wait_sessions: u32 = match params.upgrade_finalization_wait_sessions {
        Some(sessions) => sessions,
        None => UPGRADE_FINALIZATION_WAIT_SESSIONS,
    };
    let mut steps: Vec<UpgradeStep> = Vec::new();
    steps.push(UpgradeStep::AwaitFinalized { block: 1 });
    steps.push(UpgradeStep::Schedule { version, session });
    steps.push(UpgradeStep::AwaitSession { session: session + wait_sessions });
    steps.push(UpgradeStep::CheckFinalizationStopped { upgrade_session: session });
    proof {
        assert(steps@ =~= seq![
            UpgradeStep::AwaitFinalized { block: 1 },
            UpgradeStep::Schedule { version: params.version(), session: params.session() },
            UpgradeStep::AwaitSession {
                session: (params.session() + params.wait_sessions()) as u32,
            },
            UpgradeStep::CheckFinalizationStopped { upgrade_session: params.session() },
        ]);
    }
    steps
}

/// What is found of finalization after an upgrade that is supposed to break it.
#[derive(Clone, Copy, Debug, PartialEq, Eq, Structural)]
pub enum FinalizationVerdict {
    /// It is still behind the session of the upgrade.
    Stopped,
    /// It went on.
    WentOn,
    /// No block is finalized at all.
    NothingFinalized,
}

/// The first block of a session.
pub fn get_session_first_block(session: u32, session_period: u32) -> (block: u32)
    requires
        session * session_period <= u32::MAX,
    ensures
        block == session * session_period,
{
    session * session_period
}

/// The verdict over finalization, given the last finalized block and the first
/// block of the session of the upgrade.
pub fn finalization_verdict(
    finalized_block: Option<u32>,
    first_block_in_upgrade_session: u32,
) -> (verdict: FinalizationVerdict)
    ensures
        verdict == match finalized_block {
            None => FinalizationVerdict::NothingFinalized,
            Some(block) => if block <= first_block_in_upgrade_session {
                FinalizationVerdict::Stopped
            } else {
                FinalizationVerdict::WentOn
            },
        },
{
    match finalized_block {
        None => FinalizationVerdict::NothingFinalized,
        Some(block) => if block <= first_block_in_upgrade_session {
            FinalizationVerdict::Stopped
        } else {
            FinalizationVerdict::WentOn
        },
    }
}

/// What is to be done next.
#[derive(Clone, Copy, Debug, PartialEq, Eq, Structural)]
pub enum UpgradeAction {
    /// Wait until a block with at least this number is finalized.
    AwaitFinalized { block: u32 },
    /// Schedule the change.
    Schedule { version: u32, session: u32 },
    /// Wait until at least this session.
    AwaitSession { session: u32 },
    /// Read the last finalized block, and how many blocks a session has.
    ReadFinalized,
    /// Nothing: all succeeded.
    Finish,
    /// Nothing: something failed.
    Abort,
}

/// What came of an action.
#[derive(Clone, Copy, Debug)]
pub enum UpgradeOutcome<E> {
    /// It succeeded.
    Done,
    /// The session was reached in this block.
    SessionReached { block: u32 },
    /// The last finalized block, if any, and how many blocks a session has.
    FinalizedRead { finalized_block: Option<u32>, session_period: u32 },
    /// It failed.
    Failed(E),
}

/// In what way a scenario failed.
#[derive(Clone, Copy, Debug)]
pub enum UpgradeFailure<E> {
    /// An action failed.
    Step(E),
    /// Finalization went on.
    WentOn,
    /// No block is finalized at all.
    NothingFinalized,
}

/// What running a scenario is: how many steps are done, the block that was
/// remembered last, and how it failed, if it did.
#[verifier::ext_equal]
pub struct UpgradeState<E> {
    pub steps: Seq<UpgradeStep>,
    pub done: nat,
    pub remembered: u32,
    pub failure: Option<UpgradeFailure<E>>,
}

/// The first block of a session, however large its number.
pub open spec fn first_block(session: u32, session_period: u32) -> int {
    session * session_period
}

/// Whether the outcome is a success of the step.
pub open spec fn succeeds<E>(step: UpgradeStep, outcome: UpgradeOutcome<E>) -> bool {
    match step {
        UpgradeStep::AwaitSession { .. } => outcome is SessionReached,
        UpgradeStep::CheckFinalizationStopped { upgrade_session } => outcome matches
            UpgradeOutcome::FinalizedRead { finalized_block, session_period } && (finalized_block
            matches Some(block) && block <= first_block(upgrade_session, session_period)),
        _ => outcome is Done,
    }
}

impl<E> UpgradeState<E> {
    /// Before anything is done.
    pub open spec fn initial(steps: Seq<UpgradeStep>) -> Self {
        UpgradeState { steps, done: 0, remembered: 0, failure: None }
    }

    /// No more steps are done than there are, and where one failed, not all are.
    pub open spec fn valid(self) -> bool {
        &&& self.done <= self.steps.len() <= usize::MAX
        &&& self.failure is Some ==> self.done < self.steps.len()
    }

    /// Whether every step succeeded.
    pub open spec fn is_finished(self) -> bool {
        self.failure is None && self.done == self.steps.len()
    }

    /// What is to be done next.
    pub open spec fn next_action(self) -> UpgradeAction {
        if self.failure is Some {
            UpgradeAction::Abort
        } else if self.done >= self.steps.len() {
            UpgradeAction::Finish
        } else {
            match self.steps[self.done as int] {
                UpgradeStep::AwaitFinalized { block } => UpgradeAction::AwaitFinalized { block },
                UpgradeStep::Schedule { version, session } => UpgradeAction::Schedule {
                    version,
                    session,
                },
                UpgradeStep::AwaitSession { session } => UpgradeAction::AwaitSession { session },
                UpgradeStep::AwaitRememberedFinalized => UpgradeAction::AwaitFinalized {
                    block: self.remembered,
                },
                UpgradeStep::CheckFinalizationStopped { .. } => UpgradeAction::ReadFinalized,
            }
        }
    }

    /// Whether the outcome is one that the next action can have. The first block
    /// of the session of the upgrade has to be in range.
    pub open spec fn expects(self, outcome: UpgradeOutcome<E>) -> bool {
        &&& self.failure is None
        &&& self.done < self.steps.len()
        &&& outcome is Failed || match self.steps[self.done as int] {
            UpgradeStep::AwaitSession { .. } => outcome is SessionReached,
            UpgradeStep::CheckFinalizationStopped { upgrade_session } => outcome matches
                UpgradeOutcome::FinalizedRead { session_period, .. } && first_block(
                upgrade_session,
                session_period,
            ) <= u32::MAX,
            _ => outcome is Done,
        }
    }

    /// What the outcome leads to: the next step where it is a success, otherwise
    /// the end.
    pub open spec fn after(self, outcome: UpgradeOutcome<E>) -> Self {
        let step = self.steps[self.done as int];
        if succeeds(step, outcome) {
            UpgradeState {
                done: self.done + 1,
                remembered: match outcome {
                    UpgradeOutcome::SessionReached { block } => block,
                    _ => self.remembered,
                },
                ..self
            }
        } else {
            UpgradeState {
                failure: Some(
                    match outcome {
                        UpgradeOutcome::Failed(error) => UpgradeFailure::Step(error),
                        UpgradeOutcome::FinalizedRead { finalized_block: None, .. } =>
                            UpgradeFailure::NothingFinalized,
                        _ => UpgradeFailure::WentOn,
                    },
                ),
                ..self
            }
        }
    }
}

/// Runs a scenario on a change of the version. The first step that fails ends it.
#[derive(Debug)]
pub struct UpgradeRun<E> {
    steps: Vec<UpgradeStep>,
    done: usize,
    remembered: u32,
    failure: Option<UpgradeFailure<E>>,
}

impl<E> View for UpgradeRun<E> {
    type V = UpgradeState<E>;

    closed spec fn view(&self) -> UpgradeState<E> {
        UpgradeState {
            steps: self.steps@,
            done: self.done as nat,
            remembered: self.remembered,
            failure: self.failure,
        }
    }
}

impl<E> UpgradeRun<E> {
    /// Begins to run the steps.
    pub fn new(steps: Vec<UpgradeStep>) -> (run: Self)
        ensures
            run@ == UpgradeState::<E>::initial(steps@),
            run@.valid(),
    {
        proof {
            assert(steps@.len() == steps.len());
        }
        UpgradeRun { steps, done: 0, remembered: 0, failure: None }
    }

    /// What is to be done next.
    pub fn action(&self) -> (action: UpgradeAction)
        requires
            self@.valid(),
        ensures
            action == self@.next_action(),
    {
        if self.failure.is_some() {
            return UpgradeAction::Abort;
        }
        if self.done >= self.steps.len() {
            return UpgradeAction::Finish;
        }
        match self.steps[self.done] {
            UpgradeStep::AwaitFinalized { block } => UpgradeAction::AwaitFinalized { block },
            UpgradeStep::Schedule { version, session } => UpgradeAction::Schedule {
                version,
                session,
            },
            UpgradeStep::AwaitSession { session } => UpgradeAction::AwaitSession { session },
            UpgradeStep::AwaitRememberedFinalized => UpgradeAction::AwaitFinalized {
                block: self.remembered,
            },
            UpgradeStep::CheckFinalizationStopped { upgrade_session: _ } =>
                UpgradeAction::ReadFinalized,
        }
    }

    /// Goes on with what came of the action. A failure ends the run.
    pub fn on_outcome(&mut self, outcome: UpgradeOutcome<E>)
        requires
            old(self)@.valid(),
            old(self)@.expects(outcome),
        ensures
            final(self)@.valid(),
            final(self)@ == old(self)@.after(outcome),
            outcome is Failed ==> final(self)@.failure is Some,
    {
        match outcome {
            UpgradeOutcome::Failed(error) => {
                self.failure = Some(UpgradeFailure::Step(error));
            },
            UpgradeOutcome::Done => {
                self.done = self.done + 1;
            },
            UpgradeOutcome::SessionReached { block } => {
                self.remembered = block;
                self.done = self.done + 1;
            },
            UpgradeOutcome::FinalizedRead { finalized_block, session_period } => {
                match self.steps[self.done] {
                    UpgradeStep::CheckFinalizationStopped { upgrade_session } => {
                        let first: u32 = get_session_first_block(upgrade_session, session_period);
                        match finalization_verdict(finalized_block, first) {
                            FinalizationVerdict::Stopped => {
                                self.done = self.done + 1;
                            },
                            FinalizationVerdict::WentOn => {
                                self.failure = Some(UpgradeFailure::WentOn);
                            },
                            FinalizationVerdict::NothingFinalized => {
                                self.failure = Some(UpgradeFailure::NothingFinalized);
                            },
                        }
                    },
                    _ => {},
                }
            },
        }
    }

    /// What the run came to: success where every step succeeded, otherwise how it
    /// failed.
    pub fn result(self) -> (result: Result<(), UpgradeFailure<E>>)
        requires
            self@.valid(),
            self@.is_finished() || self@.failure is Some,
        ensures
            result == match self@.failure {
                None => Ok(()),
                Some(failure) => Err(failure),
            },
            result is Ok <==> self@.is_finished(),
    {
        match self.failure {
            None => Ok(()),
            Some(failure) => Err(failure),
        }
    }
}

/// The state of a scenario after a sequence of outcomes.
pub open spec fn upgrade_after<E>(
    state: UpgradeState<E>,
    outcomes: Seq<UpgradeOutcome<E>>,
) -> UpgradeState<E>
    decreases outcomes.len(),
{
    if outcomes.len() == 0 {
        state
    } else {
        upgrade_after(state, outcomes.drop_last()).after(outcomes.last())
    }
}

/// Whether each outcome is one that the action before it can have.
pub open spec fn upgrade_expects<E>(state: UpgradeState<E>, outcomes: Seq<UpgradeOutcome<E>>) -> bool
    decreases outcomes.len(),
{
    outcomes.len() > 0 ==> {
        &&& upgrade_expects(state, outcomes.drop_last())
        &&& upgrade_after(state, outcomes.drop_last()).expects(outcomes.last())
    }
}

/// A scenario is finished only once each of its steps, in order, succeeded. Up to
/// a failure there is one success for each step that is done, and a failure is the
/// last thing that happens.
pub proof fn upgrades_finish_only_when_all_succeeds<E>(
    steps: Seq<UpgradeStep>,
    outcomes: Seq<UpgradeOutcome<E>>,
)
    requires
        upgrade_expects(UpgradeState::<E>::initial(steps), outcomes),
    ensures
        ({
            let state = upgrade_after(UpgradeState::<E>::initial(steps), outcomes);
            &&& state.steps == steps
            &&& state.done <= steps.len()
            &&& forall|i: int|
                0 <= i < state.done ==> succeeds(steps[i], #[trigger] outcomes[i])
            &&& state.failure is None ==> outcomes.len() == state.done
            &&& state.failure is Some ==> outcomes.len() == state.done + 1
            &&& state.is_finished() ==> outcomes.len() == steps.len() && forall|i: int|
                0 <= i < steps.len() ==> succeeds(steps[i], #[trigger] outcomes[i])
        }),
    decreases outcomes.len(),
{
    if outcomes.len() > 0 {
        let before = outcomes.drop_last();
        upgrades_finish_only_when_all_succeeds(steps, before);
        let previous = upgrade_after(UpgradeState::<E>::initial(steps), before);
        let state = upgrade_after(UpgradeState::<E>::initial(steps), outcomes);
        assert forall|i: int| 0 <= i < state.done implies succeeds(
            steps[i],
            #[trigger] outcomes[i],
        ) by {
            if i < previous.done {
                assert(before[i] == outcomes[i]);
            } else {
                assert(outcomes[i] == outcomes.last());
            }
        }
    }
}

/// What a scenario is asked for is taken; by default it changes to version one in
/// session three, and looks at finalization three sessions later.
pub proof fn params_are_taken_or_defaults(params: VersionUpgradeParams)
    ensures
        params.upgrade_to_version matches Some(version) ==> params.version() == version,
        params.upgrade_to_version is None ==> params.version() == 1,
        params.upgrade_session matches Some(session) ==> params.session() == session,
        params.upgrade_session is None ==> params.session() == 3,
        params.upgrade_finalization_wait_sessions matches Some(sessions) ==> params.wait_sessions()
            == sessions,
        params.upgrade_finalization_wait_sessions is None ==> params.wait_sessions() == 3,
{
}

/// A step succeeds by what it waits or looks for, and finalization counts as
/// stopped exactly where some block is finalized and none beyond the first one of
/// the session of the upgrade.
pub proof fn steps_succeed_by_what_they_look_for<E>(
    upgrade_session: u32,
    finalized_block: Option<u32>,
    session_period: u32,
    session: u32,
    block: u32,
    version: u32,
    error: E,
)
    ensures
        succeeds(
            UpgradeStep::CheckFinalizationStopped { upgrade_session },
            UpgradeOutcome::<E>::FinalizedRead { finalized_block, session_period },
        ) <==> finalized_block is Some && finalized_block->0 <= upgrade_session * session_period,
        succeeds(
            UpgradeStep::AwaitSession { session },
            UpgradeOutcome::<E>::SessionReached { block },
        ),
        succeeds(UpgradeStep::AwaitFinalized { block }, UpgradeOutcome::<E>::Done),
        succeeds(UpgradeStep::Schedule { version, session }, UpgradeOutcome::<E>::Done),
        succeeds(UpgradeStep::AwaitRememberedFinalized, UpgradeOutcome::<E>::Done),
        !succeeds(UpgradeStep::AwaitSession { session }, UpgradeOutcome::Failed(error)),
        !succeeds(UpgradeStep::AwaitFinalized { block }, UpgradeOutcome::Failed(error)),
        !succeeds(UpgradeStep::Schedule { version, session }, UpgradeOutcome::Failed(error)),
        !succeeds(UpgradeStep::AwaitRememberedFinalized, UpgradeOutcome::Failed(error)),
        !succeeds(
            UpgradeStep::CheckFinalizationStopped { upgrade_session },
            UpgradeOutcome::Failed(error),
        ),
        first_block(upgrade_session, session_period) == upgrade_session * session_period,
{
}

/// What is to be done is what the step says that comes next; the block that is
/// waited for at the end is the one in which a session was last reached.
pub proof fn steps_are_done_in_order<E>(state: UpgradeState<E>)
    requires
        state.valid(),
        state.failure is None,
    ensures
        state.done == state.steps.len() ==> state.next_action() is Finish,
        state.done < state.steps.len() ==> match state.steps[state.done as int] {
            UpgradeStep::AwaitFinalized { block } => state.next_action() == (
            UpgradeAction::AwaitFinalized { block }),
            UpgradeStep::Schedule { version, session } => state.next_action() == (
            UpgradeAction::Schedule { version, session }),
            UpgradeStep::AwaitSession { session } => state.next_action() == (
            UpgradeAction::AwaitSession { session }),
            UpgradeStep::AwaitRememberedFinalized => state.next_action() == (
            UpgradeAction::AwaitFinalized { block: state.remembered }),
            UpgradeStep::CheckFinalizationStopped { .. } => state.next_action()
                == UpgradeAction::ReadFinalized,
        },
        UpgradeState::<E>::initial(state.steps).done == 0,
        UpgradeState::<E>::initial(state.steps).steps == state.steps,
        UpgradeState::<E>::initial(state.steps).failure is None,
{
}

/// A success leads to the next step, and the block in which a session was reached
/// is remembered until another is. Anything else ends the scenario there, for the
/// reason that was given or found.
pub proof fn failures_end_the_upgrade<E>(state: UpgradeState<E>, outcome: UpgradeOutcome<E>)
    requires
        state.valid(),
        state.expects(outcome),
    ensures
        ({
            let after = state.after(outcome);
            &&& after.steps == state.steps
            &&& succeeds(state.steps[state.done as int], outcome) ==> {
                &&& after.done == state.done + 1
                &&& after.failure is None
                &&& outcome matches UpgradeOutcome::SessionReached { block } ==> after.remembered
                    == block
                &&& !(outcome is SessionReached) ==> after.remembered == state.remembered
            }
            &&& !succeeds(state.steps[state.done as int], outcome) ==> {
                &&& after.done == state.done
                &&& after.next_action() is Abort
                &&& outcome matches UpgradeOutcome::Failed(error) ==> after.failure == Some(
                    UpgradeFailure::Step(error),
                )
                &&& outcome matches UpgradeOutcome::FinalizedRead { finalized_block, .. } ==> {
                    &&& finalized_block is None ==> after.failure == Some(
                        UpgradeFailure::<E>::NothingFinalized,
                    )
                    &&& finalized_block is Some ==> after.failure == Some(
                        UpgradeFailure::<E>::WentOn,
                    )
                }
            }
        }),
{
}

/// A scenario is finished exactly where nothing is left to be done and nothing
/// failed.
pub proof fn upgrades_are_finished_when_nothing_is_left<E>(state: UpgradeState<E>)
    requires
        state.valid(),
    ensures
        state.is_finished() <==> state.next_action() is Finish,
        state.failure is Some <==> state.next_action() is Abort,
{
}

/// As long as a scenario is not over, it takes a failure of what it does next, and
/// the success that belongs to it.
pub proof fn upgrades_take_what_comes_of_their_actions<E>(
    state: UpgradeState<E>,
    error: E,
    block: u32,
)
    requires
        state.valid(),
    ensures
        state.expects(UpgradeOutcome::Failed(error)) <==> !(state.next_action() is Finish) && !(
        state.next_action() is Abort),
        state.next_action() is AwaitSession ==> state.expects(
            UpgradeOutcome::SessionReached { block },
        ),
        state.next_action() is AwaitFinalized || state.next_action() is Schedule ==> state.expects(
            UpgradeOutcome::Done,
        ),
{
}

/// Finalization that is behind the first block of the session of an upgrade
/// counts as stopped, and so does any that is further behind; one that is beyond
/// it went on, and so does any that is further beyond.
pub proof fn verdicts_are_monotone(
    block: u32,
    earlier: u32,
    first_block: u32,
    verdict: FinalizationVerdict,
    verdict_earlier: FinalizationVerdict,
    without: FinalizationVerdict,
)
    requires
        earlier <= block,
        call_ensures(finalization_verdict, (Some(block), first_block), verdict),
        call_ensures(finalization_verdict, (Some(earlier), first_block), verdict_earlier),
        call_ensures(finalization_verdict, (None::<u32>, first_block), without),
    ensures
        verdict == FinalizationVerdict::Stopped ==> verdict_earlier
            == FinalizationVerdict::Stopped,
        verdict_earlier == FinalizationVerdict::WentOn ==> verdict == FinalizationVerdict::WentOn,
        block == first_block ==> verdict == FinalizationVerdict::Stopped,
        earlier == first_block + 1 ==> verdict == FinalizationVerdict::WentOn,
        verdict != FinalizationVerdict::NothingFinalized,
        without == FinalizationVerdict::NothingFinalized,
{
}

} // verus!

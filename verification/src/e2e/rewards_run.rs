//! Running a scenario on points: what is done next, and what comes of it. The
//! first step or check that fails ends the run.

use vstd::prelude::*;

use crate::client::transaction::AccountId;
use crate::e2e::rewards::{
    checks_view, copy_accounts, CheckView, EraValidators, ExpectedEra, PointsCheck, RewardsPlan,
    RewardsStart, RewardsStep, ValidatorsView, Wait,
};

verus! {

/// What came of an action.
#[derive(Debug)]
pub enum RewardsOutcome<E> {
    /// It succeeded.
    Done,
    /// The era that was read.
    EraRead(u32),
    /// The members of a session that were read: those in the committee and those
    /// on the bench.
    MembersRead { active: Vec<AccountId>, bench: Vec<AccountId> },
    /// It failed.
    Failed(E),
}

/// What an outcome is.
pub enum OutcomeView<E> {
    Done,
    EraRead(u32),
    MembersRead { active: Seq<AccountId>, bench: Seq<AccountId> },
    Failed(E),
}

impl<E> View for RewardsOutcome<E> {
    type V = OutcomeView<E>;

    open spec fn view(&self) -> OutcomeView<E> {
        match *self {
            RewardsOutcome::Done => OutcomeView::Done,
            RewardsOutcome::EraRead(era) => OutcomeView::EraRead(era),
            RewardsOutcome::MembersRead { active, bench } => OutcomeView::MembersRead {
                active: active@,
                bench: bench@,
            },
            RewardsOutcome::Failed(error) => OutcomeView::Failed(error),
        }
    }
}

/// What is to be done next to check points.
#[derive(Debug)]
pub enum CheckAction {
    /// Read the members of a session.
    ReadMembers { session: u32, era_validators: EraValidators, members_per_session: u32 },
    /// Read the era that a session belongs to.
    ReadEra { session: u32 },
    /// Check the points of a session.
    CheckPoints {
        session: u32,
        era: u32,
        active: Vec<AccountId>,
        bench: Vec<AccountId>,
        members_per_session: u32,
        max_difference_percent: u32,
    },
    /// Nothing: every check succeeded.
    Finish,
    /// Nothing: something failed.
    Abort,
}

/// What an action is.
pub enum CheckActionView {
    ReadMembers { session: u32, validators: ValidatorsView, members_per_session: u32 },
    ReadEra { session: u32 },
    CheckPoints {
        session: u32,
        era: u32,
        active: Seq<AccountId>,
        bench: Seq<AccountId>,
        members_per_session: u32,
        max_difference_percent: u32,
    },
    Finish,
    Abort,
}

impl View for CheckAction {
    type V = CheckActionView;

    open spec fn view(&self) -> CheckActionView {
        match *self {
            CheckAction::ReadMembers { session, era_validators, members_per_session } =>
                CheckActionView::ReadMembers {
                    session,
                    validators: era_validators@,
                    members_per_session,
                },
            CheckAction::ReadEra { session } => CheckActionView::ReadEra { session },
            CheckAction::CheckPoints {
                session,
                era,
                active,
                bench,
                members_per_session,
                max_difference_percent,
            } => CheckActionView::CheckPoints {
                session,
                era,
                active: active@,
                bench: bench@,
                members_per_session,
                max_difference_percent,
            },
            CheckAction::Finish => CheckActionView::Finish,
            CheckAction::Abort => CheckActionView::Abort,
        }
    }
}

/// How far the checks have come.
#[derive(Clone, Copy, Debug, PartialEq, Eq, Structural)]
pub enum CheckPhase {
    /// The members of the session of this check have to be read.
    ReadingMembers { check: usize },
    /// The era of the session of this check has to be read.
    ReadingEra { check: usize },
    /// The points have to be checked, in this era.
    Checking { check: usize, era: u32 },
    /// Every check succeeded.
    Finished,
    /// Something failed.
    Failed,
}

/// What running checks is.
#[verifier::ext_equal]
pub struct CheckState<E> {
    pub checks: Seq<CheckView>,
    pub phase: CheckPhase,
    pub active: Seq<AccountId>,
    pub bench: Seq<AccountId>,
    pub failure: Option<E>,
}

/// The phase in which a check is begun, or all are over.
pub open spec fn check_from(checks: Seq<CheckView>, check: nat) -> CheckPhase {
    if check < checks.len() {
        CheckPhase::ReadingMembers { check: check as usize }
    } else {
        CheckPhase::Finished
    }
}

impl<E> CheckState<E> {
    /// Before anything is checked.
    pub open spec fn initial(checks: Seq<CheckView>) -> Self {
        CheckState {
            checks,
            phase: check_from(checks, 0),
            active: Seq::empty(),
            bench: Seq::empty(),
            failure: None,
        }
    }

    /// The check that is under way is one of the checks, its era is the expected
    /// one, and there is an error exactly where something failed.
    pub open spec fn valid(self) -> bool {
        &&& self.checks.len() <= usize::MAX
        &&& self.failure is Some <==> self.phase is Failed
        &&& match self.phase {
            CheckPhase::ReadingMembers { check } => check < self.checks.len(),
            CheckPhase::ReadingEra { check } => check < self.checks.len()
                && self.checks[check as int].era is OfSession,
            CheckPhase::Checking { check, era } => check < self.checks.len() && (
            self.checks[check as int].era matches ExpectedEra::Era(e) ==> e == era),
            _ => true,
        }
    }

    /// Whether nothing more is done.
    pub open spec fn is_over(self) -> bool {
        self.phase is Finished || self.phase is Failed
    }

    /// What is to be done next.
    pub open spec fn next_action(self) -> CheckActionView {
        match self.phase {
            CheckPhase::ReadingMembers { check } => CheckActionView::ReadMembers {
                session: self.checks[check as int].session,
                validators: self.checks[check as int].validators,
                members_per_session: self.checks[check as int].members_per_session,
            },
            CheckPhase::ReadingEra { check } => CheckActionView::ReadEra {
                session: self.checks[check as int].session,
            },
            CheckPhase::Checking { check, era } => CheckActionView::CheckPoints {
                session: self.checks[check as int].session,
                era,
                active: self.active,
                bench: self.bench,
                members_per_session: self.checks[check as int].members_per_session,
                max_difference_percent: self.checks[check as int].max_difference_percent,
            },
            CheckPhase::Finished => CheckActionView::Finish,
            CheckPhase::Failed => CheckActionView::Abort,
        }
    }

    /// Whether the outcome is one that the next action can have.
    pub open spec fn expects(self, outcome: OutcomeView<E>) -> bool {
        match self.phase {
            CheckPhase::ReadingMembers { .. } => outcome is MembersRead || outcome is Failed,
            CheckPhase::ReadingEra { .. } => outcome is EraRead || outcome is Failed,
            CheckPhase::Checking { .. } => outcome is Done || outcome is Failed,
            _ => false,
        }
    }

    /// What the outcome leads to.
    pub open spec fn after(self, outcome: OutcomeView<E>) -> Self {
        match (self.phase, outcome) {
            (_, OutcomeView::Failed(error)) => CheckState {
                phase: CheckPhase::Failed,
                failure: Some(error),
                ..self
            },
            (CheckPhase::ReadingMembers { check }, OutcomeView::MembersRead { active, bench }) =>
                CheckState {
                    phase: match self.checks[check as int].era {
                        ExpectedEra::OfSession => CheckPhase::ReadingEra { check },
                        ExpectedEra::Era(era) => CheckPhase::Checking { check, era },
                    },
                    active,
                    bench,
                    ..self
                },
            (CheckPhase::ReadingEra { check }, OutcomeView::EraRead(era)) => CheckState {
                phase: CheckPhase::Checking { check, era },
                ..self
            },
            (CheckPhase::Checking { check, .. }, OutcomeView::Done) => CheckState {
                phase: check_from(self.checks, (check + 1) as nat),
                ..self
            },
            _ => self,
        }
    }

    /// How many checks succeeded, unless something failed.
    pub open spec fn succeeded(self) -> nat {
        match self.phase {
            CheckPhase::ReadingMembers { check } => check as nat,
            CheckPhase::ReadingEra { check } => check as nat,
            CheckPhase::Checking { check, .. } => check as nat,
            CheckPhase::Finished => self.checks.len(),
            CheckPhase::Failed => 0,
        }
    }
}

/// Runs checks one after the other.
#[derive(Debug)]
pub struct CheckRun<E> {
    checks: Vec<PointsCheck>,
    phase: CheckPhase,
    active: Vec<AccountId>,
    bench: Vec<AccountId>,
    failure: Option<E>,
}

impl<E> View for CheckRun<E> {
    type V = CheckState<E>;

    closed spec fn view(&self) -> CheckState<E> {
        CheckState {
            checks: checks_view(self.checks@),
            phase: self.phase,
            active: self.active@,
            bench: self.bench@,
            failure: self.failure,
        }
    }
}

impl<E> CheckRun<E> {
    /// Begins to run the checks.
    pub fn new(checks: Vec<PointsCheck>) -> (run: Self)
        ensures
            run@ == CheckState::<E>::initial(checks_view(checks@)),
            run@.valid(),
    {
        let phase: CheckPhase = if checks.len() > 0 {
            CheckPhase::ReadingMembers { check: 0 }
        } else {
            CheckPhase::Finished
        };
        let run = CheckRun { checks, phase, active: Vec::new(), bench: Vec::new(), failure: None };
        proof {
            assert(run@ =~= CheckState::<E>::initial(checks_view(checks@)));
        }
        run
    }

    /// What is to be done next.
    pub fn action(&self) -> (action: CheckAction)
        requires
            self@.valid(),
        ensures
            action@ == self@.next_action(),
    {
        match self.phase {
            CheckPhase::ReadingMembers { check } => CheckAction::ReadMembers {
                session: self.checks[check].session,
                era_validators: self.checks[check].era_validators.clone(),
                members_per_session: self.checks[check].members_per_session,
            },
            CheckPhase::ReadingEra { check } => CheckAction::ReadEra {
                session: self.checks[check].session,
            },
            CheckPhase::Checking { check, era } => CheckAction::CheckPoints {
                session: self.checks[check].session,
                era,
                active: copy_accounts(&self.active),
                bench: copy_accounts(&self.bench),
                members_per_session: self.checks[check].members_per_session,
                max_difference_percent: self.checks[check].max_difference_percent,
            },
            CheckPhase::Finished => CheckAction::Finish,
            CheckPhase::Failed => CheckAction::Abort,
        }
    }

    /// Goes on with what came of the action. A failure ends the run.
    pub fn on_outcome(&mut self, outcome: RewardsOutcome<E>)
        requires
            old(self)@.valid(),
            old(self)@.expects(outcome@),
        ensures
            final(self)@.valid(),
            final(self)@ == old(self)@.after(outcome@),
            outcome is Failed ==> final(self)@.phase is Failed,
    {
        match outcome {
            RewardsOutcome::Failed(error) => {
                self.phase = CheckPhase::Failed;
                self.failure = Some(error);
            },
            RewardsOutcome::MembersRead { active, bench } => {
                match self.phase {
                    CheckPhase::ReadingMembers { check } => {
                        self.phase =
                        match self.checks[check].era {
                            ExpectedEra::OfSession => CheckPhase::ReadingEra { check },
                            ExpectedEra::Era(era) => CheckPhase::Checking { check, era },
                        };
                    },
                    _ => {},
                }
                self.active = active;
                self.bench = bench;
            },
            RewardsOutcome::EraRead(era) => match self.phase {
                CheckPhase::ReadingEra { check } => {
                    self.phase = CheckPhase::Checking { check, era };
                },
                _ => {},
            },
            RewardsOutcome::Done => match self.phase {
                CheckPhase::Checking { check, era: _ } => {
                    self.phase =
                    if check + 1 < self.checks.len() {
                        CheckPhase::ReadingMembers { check: check + 1 }
                    } else {
                        CheckPhase::Finished
                    };
                },
                _ => {},
            },
        }
    }

    /// Whether nothing more is done.
    pub fn is_over(&self) -> (over: bool)
        ensures
            over == self@.is_over(),
    {
        match self.phase {
            CheckPhase::Finished | CheckPhase::Failed => true,
            _ => false,
        }
    }

    /// What the run came to: success where every check succeeded, otherwise the
    /// first error.
    pub fn result(self) -> (result: Result<(), E>)
        requires
            self@.valid(),
            self@.is_over(),
        ensures
            result == match self@.failure {
                None => Ok(()),
                Some(error) => Err(error),
            },
            result is Ok <==> self@.phase is Finished,
    {
        match self.failure {
            None => Ok(()),
            Some(error) => Err(error),
        }
    }
}

/// What is to be done next in a scenario on points.
#[derive(Debug)]
pub enum RewardsAction {
    /// Bond these additional stakes, one for each validator.
    BondExtraStakes { stakes: Vec<u128> },
    /// Set invalid session keys for a validator.
    SetInvalidKeys,
    /// Set valid session keys for the validator again.
    ResetKeys,
    /// Force a new era, and wait until that is finalized.
    ForceNewEra,
    /// Read the era that there is now.
    ReadCurrentEra,
    /// Wait for a session.
    AwaitSession { session: u32 },
    /// Check points.
    Check(CheckAction),
    /// Nothing: a step failed.
    Abort,
}

/// What an action is.
pub enum RewardsActionView {
    BondExtraStakes { stakes: Seq<u128> },
    SetInvalidKeys,
    ResetKeys,
    ForceNewEra,
    ReadCurrentEra,
    AwaitSession { session: u32 },
    Check(CheckActionView),
    Abort,
}

impl View for RewardsAction {
    type V = RewardsActionView;

    open spec fn view(&self) -> RewardsActionView {
        match *self {
            RewardsAction::BondExtraStakes { stakes } => RewardsActionView::BondExtraStakes {
                stakes: stakes@,
            },
            RewardsAction::SetInvalidKeys => RewardsActionView::SetInvalidKeys,
            RewardsAction::ResetKeys => RewardsActionView::ResetKeys,
            RewardsAction::ForceNewEra => RewardsActionView::ForceNewEra,
            RewardsAction::ReadCurrentEra => RewardsActionView::ReadCurrentEra,
            RewardsAction::AwaitSession { session } => RewardsActionView::AwaitSession { session },
            RewardsAction::Check(action) => RewardsActionView::Check(action@),
            RewardsAction::Abort => RewardsActionView::Abort,
        }
    }
}

/// The action of a step before the wait.
pub open spec fn step_action(plan: RewardsPlan, step: RewardsStep) -> RewardsActionView {
    match step {
        RewardsStep::BondExtraStakes => RewardsActionView::BondExtraStakes {
            stakes: plan.extra_stakes@,
        },
        RewardsStep::SetInvalidKeys => RewardsActionView::SetInvalidKeys,
        RewardsStep::ResetKeys => RewardsActionView::ResetKeys,
        _ => RewardsActionView::ForceNewEra,
    }
}

/// The actions before the wait, in order.
pub open spec fn preparing_actions(plan: RewardsPlan) -> Seq<RewardsActionView> {
    plan.preparation().map_values(|step: RewardsStep| step_action(plan, step))
}

/// How far a scenario has come.
#[derive(Clone, Copy, Debug, PartialEq, Eq, Structural)]
pub enum RewardsPhase {
    /// This step before the wait has to be done.
    Preparing { step: usize },
    /// The era that there is now has to be read.
    ReadingEra,
    /// The session has to be waited for.
    Awaiting { session: u32 },
    /// Points have to be checked, after this session was waited for.
    Checking { awaited: u32 },
    /// A step failed.
    Failed,
}

/// What running a scenario is.
#[verifier::ext_equal]
pub struct RewardsState<E> {
    pub plan: RewardsPlan,
    pub start: RewardsStart,
    pub validators: ValidatorsView,
    pub committee_size: u32,
    pub phase: RewardsPhase,
    pub checks: CheckState<E>,
    pub failure: Option<E>,
}

/// The phase in which the wait begins.
pub open spec fn wait_phase(plan: RewardsPlan, start: RewardsStart) -> RewardsPhase {
    match plan.wait {
        Wait::Sessions(sessions) => RewardsPhase::Awaiting {
            session: (start.session + sessions) as u32,
        },
        _ => RewardsPhase::ReadingEra,
    }
}

/// The phase in which a step before the wait begins, or the wait.
pub open spec fn prepare_from(plan: RewardsPlan, start: RewardsStart, step: nat) -> RewardsPhase {
    if step < plan.preparation().len() {
        RewardsPhase::Preparing { step: step as usize }
    } else {
        wait_phase(plan, start)
    }
}

impl<E> RewardsState<E> {
    /// Before anything is done.
    pub open spec fn initial(
        plan: RewardsPlan,
        start: RewardsStart,
        validators: ValidatorsView,
        committee_size: u32,
    ) -> Self {
        RewardsState {
            plan,
            start,
            validators,
            committee_size,
            phase: prepare_from(plan, start, 0),
            checks: CheckState::initial(Seq::empty()),
            failure: None,
        }
    }

    /// The step that is under way is one of the steps, the checks are those of the
    /// plan, and there is an error exactly where a step failed.
    pub open spec fn valid(self) -> bool {
        &&& self.plan.in_range(self.start)
        &&& self.failure is Some <==> self.phase is Failed
        &&& self.checks.valid()
        &&& match self.phase {
            RewardsPhase::Preparing { step } => step < self.plan.preparation().len(),
            RewardsPhase::Checking { awaited } => self.checks.checks == self.plan.checks_spec(
                self.start,
                awaited as nat,
                self.validators,
                self.committee_size,
            ),
            _ => true,
        }
    }

    /// Whether every step and every check succeeded.
    pub open spec fn is_finished(self) -> bool {
        self.phase is Checking && self.checks.phase is Finished
    }

    /// Whether a step or a check failed.
    pub open spec fn is_failed(self) -> bool {
        self.phase is Failed || (self.phase is Checking && self.checks.phase is Failed)
    }

    /// The error that the scenario ended with.
    pub open spec fn error(self) -> Option<E> {
        match self.phase {
            RewardsPhase::Failed => self.failure,
            RewardsPhase::Checking { .. } => self.checks.failure,
            _ => None,
        }
    }

    /// What is to be done next.
    pub open spec fn next_action(self) -> RewardsActionView {
        match self.phase {
            RewardsPhase::Preparing { step } => step_action(
                self.plan,
                self.plan.preparation()[step as int],
            ),
            RewardsPhase::ReadingEra => RewardsActionView::ReadCurrentEra,
            RewardsPhase::Awaiting { session } => RewardsActionView::AwaitSession { session },
            RewardsPhase::Checking { .. } => RewardsActionView::Check(self.checks.next_action()),
            RewardsPhase::Failed => RewardsActionView::Abort,
        }
    }

    /// Whether the outcome is one that the next action can have. The session that
    /// an era leads to has to be in range.
    pub open spec fn expects(self, outcome: OutcomeView<E>) -> bool {
        match self.phase {
            RewardsPhase::Preparing { .. } | RewardsPhase::Awaiting { .. } => outcome is Done
                || outcome is Failed,
            RewardsPhase::ReadingEra => outcome is Failed || (outcome matches OutcomeView::EraRead(
                era,
            ) && self.plan.can_await(self.start, era)),
            RewardsPhase::Checking { .. } => self.checks.expects(outcome),
            RewardsPhase::Failed => false,
        }
    }

    /// What the outcome leads to.
    pub open spec fn after(self, outcome: OutcomeView<E>) -> Self {
        match (self.phase, outcome) {
            (RewardsPhase::Checking { .. }, _) => RewardsState {
                checks: self.checks.after(outcome),
                ..self
            },
            (_, OutcomeView::Failed(error)) => RewardsState {
                phase: RewardsPhase::Failed,
                failure: Some(error),
                ..self
            },
            (RewardsPhase::Preparing { step }, OutcomeView::Done) => RewardsState {
                phase: prepare_from(self.plan, self.start, (step + 1) as nat),
                ..self
            },
            (RewardsPhase::ReadingEra, OutcomeView::EraRead(era)) => RewardsState {
                phase: RewardsPhase::Awaiting {
                    session: self.plan.awaited(self.start, era as nat) as u32,
                },
                ..self
            },
            (RewardsPhase::Awaiting { session }, OutcomeView::Done) => RewardsState {
                phase: RewardsPhase::Checking { awaited: session },
                checks: CheckState::initial(
                    self.plan.checks_spec(
                        self.start,
                        session as nat,
                        self.validators,
                        self.committee_size,
                    ),
                ),
                ..self
            },
            _ => self,
        }
    }
}

/// Runs a scenario on points, once the validators are set up.
#[derive(Debug)]
pub struct RewardsRun<E> {
    plan: RewardsPlan,
    start: RewardsStart,
    era_validators: EraValidators,
    committee_size: u32,
    phase: RewardsPhase,
    checks: CheckRun<E>,
    failure: Option<E>,
}

impl<E> View for RewardsRun<E> {
    type V = RewardsState<E>;

    closed spec fn view(&self) -> RewardsState<E> {
        RewardsState {
            plan: self.plan,
            start: self.start,
            validators: self.era_validators@,
            committee_size: self.committee_size,
            phase: self.phase,
            checks: self.checks@,
            failure: self.failure,
        }
    }
}

fn copy_stakes(stakes: &Vec<u128>) -> (copy: Vec<u128>)
    ensures
        copy@ == stakes@,
{
    let copy = stakes.clone();
    proof {
        assert(copy@ =~= stakes@);
    }
    copy
}

fn begin_phase(plan: &RewardsPlan, start: &RewardsStart, step: usize) -> (phase: RewardsPhase)
    requires
        plan.in_range(*start),
    ensures
        phase == prepare_from(*plan, *start, step as nat),
{
    if step < plan.prepare().len() {
        RewardsPhase::Preparing { step }
    } else {
        match plan.wait {
            Wait::Sessions(sessions) => RewardsPhase::Awaiting { session: start.session + sessions },
            _ => RewardsPhase::ReadingEra,
        }
    }
}

impl<E> RewardsRun<E> {
    /// Begins to run a plan.
    pub fn new(
        plan: RewardsPlan,
        start: RewardsStart,
        era_validators: EraValidators,
        committee_size: u32,
    ) -> (run: Self)
        requires
            plan.in_range(start),
        ensures
            run@ == RewardsState::<E>::initial(plan, start, era_validators@, committee_size),
            run@.valid(),
    {
        let phase = begin_phase(&plan, &start, 0);
        let none: Vec<PointsCheck> = Vec::new();
        proof {
            assert(checks_view(none@) =~= Seq::empty());
        }
        RewardsRun {
            plan,
            start,
            era_validators,
            committee_size,
            phase,
            checks: CheckRun::new(none),
            failure: None,
        }
    }

    /// What is to be done next.
    pub fn action(&self) -> (action: RewardsAction)
        requires
            self@.valid(),
        ensures
            action@ == self@.next_action(),
    {
        match self.phase {
            RewardsPhase::Preparing { step } => match self.plan.prepare()[step] {
                RewardsStep::BondExtraStakes => RewardsAction::BondExtraStakes {
                    stakes: copy_stakes(&self.plan.extra_stakes),
                },
                RewardsStep::SetInvalidKeys => RewardsAction::SetInvalidKeys,
                RewardsStep::ResetKeys => RewardsAction::ResetKeys,
                _ => RewardsAction::ForceNewEra,
            },
            RewardsPhase::ReadingEra => RewardsAction::ReadCurrentEra,
            RewardsPhase::Awaiting { session } => RewardsAction::AwaitSession { session },
            RewardsPhase::Checking { awaited: _ } => RewardsAction::Check(self.checks.action()),
            RewardsPhase::Failed => RewardsAction::Abort,
        }
    }

    /// Goes on with what came of the action. A failure ends the run.
    pub fn on_outcome(&mut self, outcome: RewardsOutcome<E>)
        requires
            old(self)@.valid(),
            old(self)@.expects(outcome@),
        ensures
            final(self)@.valid(),
            final(self)@ == old(self)@.after(outcome@),
            outcome is Failed ==> final(self)@.is_failed(),
    {
        match self.phase {
            RewardsPhase::Checking { awaited: _ } => {
                self.checks.on_outcome(outcome);
            },
            _ => match outcome {
                RewardsOutcome::Failed(error) => {
                    self.phase = RewardsPhase::Failed;
                    self.failure = Some(error);
                },
                RewardsOutcome::EraRead(era) => {
                    let session: u32 = self.plan.awaited_session(&self.start, era);
                    self.phase = RewardsPhase::Awaiting { session };
                },
                RewardsOutcome::Done => match self.phase {
                    RewardsPhase::Preparing { step } => {
                        self.phase = begin_phase(&self.plan, &self.start, step + 1);
                    },
                    RewardsPhase::Awaiting { session } => {
                        let checks = self.plan.checks(
                            &self.start,
                            session,
                            &self.era_validators,
                            self.committee_size,
                        );
                        self.checks = CheckRun::new(checks);
                        self.phase = RewardsPhase::Checking { awaited: session };
                    },
                    _ => {},
                },
                RewardsOutcome::MembersRead { active: _, bench: _ } => {},
            },
        }
    }

    /// Whether nothing more is done.
    pub fn is_over(&self) -> (over: bool)
        ensures
            over == (self@.is_finished() || self@.is_failed()),
    {
        match self.phase {
            RewardsPhase::Checking { awaited: _ } => self.checks.is_over(),
            RewardsPhase::Failed => true,
            _ => false,
        }
    }

    /// What the run came to: success where every step and every check succeeded,
    /// otherwise the first error.
    pub fn result(self) -> (result: Result<(), E>)
        requires
            self@.valid(),
            self@.is_finished() || self@.is_failed(),
        ensures
            result == match self@.error() {
                None => Ok(()),
                Some(error) => Err(error),
            },
            result is Ok <==> self@.is_finished(),
    {
        match self.phase {
            RewardsPhase::Checking { awaited: _ } => self.checks.result(),
            _ => match self.failure {
                None => Ok(()),
                Some(error) => Err(error),
            },
        }
    }
}

/// Whether the action is this check, in the era that is expected.
pub open spec fn is_check(action: CheckActionView, check: CheckView) -> bool {
    action matches CheckActionView::CheckPoints {
        session,
        era,
        members_per_session,
        max_difference_percent,
        ..
    } && {
        &&& session == check.session
        &&& check.era matches ExpectedEra::Era(e) ==> era == e
        &&& members_per_session == check.members_per_session
        &&& max_difference_percent == check.max_difference_percent
    }
}

/// The state of checks after a sequence of outcomes.
pub open spec fn checks_after<E>(state: CheckState<E>, outcomes: Seq<OutcomeView<E>>) -> CheckState<E>
    decreases outcomes.len(),
{
    if outcomes.len() == 0 {
        state
    } else {
        checks_after(state, outcomes.drop_last()).after(outcomes.last())
    }
}

/// Whether each outcome is one that the action before it can have.
pub open spec fn checks_expect<E>(state: CheckState<E>, outcomes: Seq<OutcomeView<E>>) -> bool
    decreases outcomes.len(),
{
    outcomes.len() > 0 ==> {
        &&& checks_expect(state, outcomes.drop_last())
        &&& checks_after(state, outcomes.drop_last()).expects(outcomes.last())
    }
}

/// The actions that came back as done, in order.
pub open spec fn checks_done<E>(state: CheckState<E>, outcomes: Seq<OutcomeView<E>>) -> Seq<
    CheckActionView,
>
    decreases outcomes.len(),
{
    if outcomes.len() == 0 {
        Seq::empty()
    } else {
        let before = checks_done(state, outcomes.drop_last());
        if outcomes.last() is Done {
            before.push(checks_after(state, outcomes.drop_last()).next_action())
        } else {
            before
        }
    }
}

proof fn lemma_checks_progress<E>(checks: Seq<CheckView>, outcomes: Seq<OutcomeView<E>>)
    requires
        checks.len() <= usize::MAX,
        checks_expect(CheckState::<E>::initial(checks), outcomes),
    ensures
        ({
            let initial = CheckState::<E>::initial(checks);
            let state = checks_after(initial, outcomes);
            let done = checks_done(initial, outcomes);
            &&& state.valid()
            &&& state.checks == checks
            &&& !(state.phase is Failed) ==> done.len() == state.succeeded()
            &&& done.len() <= checks.len()
            &&& forall|i: int| 0 <= i < done.len() ==> is_check(#[trigger] done[i], checks[i])
        }),
    decreases outcomes.len(),
{
    if outcomes.len() > 0 {
        lemma_checks_progress(checks, outcomes.drop_last());
    }
}

/// Checks are finished only once each of them, in order, came back as done; and
/// where one of the actions failed, that is the last thing that was done, and its
/// error is what the checks come to.
pub proof fn checks_finish_only_when_all_succeed<E>(
    checks: Seq<CheckView>,
    outcomes: Seq<OutcomeView<E>>,
)
    requires
        checks.len() <= usize::MAX,
        checks_expect(CheckState::<E>::initial(checks), outcomes),
    ensures
        ({
            let initial = CheckState::<E>::initial(checks);
            let state = checks_after(initial, outcomes);
            let done = checks_done(initial, outcomes);
            &&& state.phase is Finished ==> done.len() == checks.len() && forall|i: int|
                0 <= i < checks.len() ==> is_check(#[trigger] done[i], checks[i])
            &&& state.phase is Failed ==> outcomes.len() > 0 && outcomes.last()
                == OutcomeView::Failed(state.failure->0)
            &&& forall|i: int|
                0 <= i < outcomes.len() - 1 ==> !((#[trigger] outcomes[i]) is Failed)
        }),
    decreases outcomes.len(),
{
    lemma_checks_progress(checks, outcomes);
    if outcomes.len() > 0 {
        let before = outcomes.drop_last();
        checks_finish_only_when_all_succeed(checks, before);
        lemma_checks_progress(checks, before);
        if before.len() > 0 {
            let previous = checks_after(CheckState::<E>::initial(checks), before);
            assert(!(previous.phase is Failed));
            assert(before.last() == outcomes[outcomes.len() - 2]);
            assert(!(before.last() is Failed));
        }
        assert forall|i: int| 0 <= i < outcomes.len() - 1 implies !((#[trigger] outcomes[i])
            is Failed) by {
            assert(before[i] == outcomes[i]);
            if i < before.len() - 1 {
            } else {
                assert(before.last() == outcomes[i]);
            }
        }
    }
}

/// The state of a scenario after a sequence of outcomes.
pub open spec fn run_after<E>(state: RewardsState<E>, outcomes: Seq<OutcomeView<E>>) -> RewardsState<
    E,
>
    decreases outcomes.len(),
{
    if outcomes.len() == 0 {
        state
    } else {
        run_after(state, outcomes.drop_last()).after(outcomes.last())
    }
}

/// Whether each outcome is one that the action before it can have.
pub open spec fn run_expects<E>(state: RewardsState<E>, outcomes: Seq<OutcomeView<E>>) -> bool
    decreases outcomes.len(),
{
    outcomes.len() > 0 ==> {
        &&& run_expects(state, outcomes.drop_last())
        &&& run_after(state, outcomes.drop_last()).expects(outcomes.last())
    }
}

/// The actions that came back as done, in order.
pub open spec fn run_done<E>(state: RewardsState<E>, outcomes: Seq<OutcomeView<E>>) -> Seq<
    RewardsActionView,
>
    decreases outcomes.len(),
{
    if outcomes.len() == 0 {
        Seq::empty()
    } else {
        let before = run_done(state, outcomes.drop_last());
        if outcomes.last() is Done {
            before.push(run_after(state, outcomes.drop_last()).next_action())
        } else {
            before
        }
    }
}

/// The checks of a scenario that waited for the session.
pub open spec fn checks_of<E>(state: RewardsState<E>, awaited: u32) -> Seq<CheckView> {
    state.plan.checks_spec(
        state.start,
        awaited as nat,
        state.validators,
        state.committee_size,
    )
}

/// Whether the action that comes so many places after the wait is the check at
/// that place.
pub open spec fn check_done<E>(
    state: RewardsState<E>,
    done: Seq<RewardsActionView>,
    awaited: u32,
    i: int,
) -> bool {
    done[preparing_actions(state.plan).len() + 1 + i] matches RewardsActionView::Check(action)
        && is_check(action, checks_of(state, awaited)[i])
}

/// Whether the actions are the steps before the wait, the wait for the session,
/// and then the first `count` checks, all in order.
pub open spec fn done_through<E>(
    state: RewardsState<E>,
    done: Seq<RewardsActionView>,
    awaited: u32,
    count: nat,
) -> bool {
    let steps = preparing_actions(state.plan);
    &&& count <= checks_of(state, awaited).len()
    &&& done.len() == steps.len() + 1 + count
    &&& done.take(steps.len() as int) == steps
    &&& done[steps.len() as int] == (RewardsActionView::AwaitSession { session: awaited })
    &&& forall|i: int| 0 <= i < count ==> #[trigger] check_done(state, done, awaited, i)
}

/// Whether the session that is waited for is that of the plan, given the era that
/// was read after the steps before the wait, where one is read.
pub open spec fn awaits_as_planned<E>(
    state: RewardsState<E>,
    outcomes: Seq<OutcomeView<E>>,
    awaited: u32,
) -> bool {
    let read = preparing_actions(state.plan).len() as int;
    match state.plan.wait {
        Wait::Sessions(_) => awaited == state.plan.awaited(state.start, 0),
        _ => read < outcomes.len() && (outcomes[read] matches OutcomeView::EraRead(era) && awaited
            == state.plan.awaited(state.start, era as nat)),
    }
}

proof fn lemma_run_progress<E>(initial: RewardsState<E>, outcomes: Seq<OutcomeView<E>>)
    requires
        initial == RewardsState::<E>::initial(
            initial.plan,
            initial.start,
            initial.validators,
            initial.committee_size,
        ),
        initial.valid(),
        run_expects(initial, outcomes),
        forall|awaited: u32| (#[trigger] initial.plan.checks_spec(
            initial.start,
            awaited as nat,
            initial.validators,
            initial.committee_size,
        )).len() <= usize::MAX,
    ensures
        ({
            let state = run_after(initial, outcomes);
            let done = run_done(initial, outcomes);
            let steps = preparing_actions(initial.plan);
            &&& state.valid()
            &&& state.plan == initial.plan
            &&& state.start == initial.start
            &&& state.validators == initial.validators
            &&& state.committee_size == initial.committee_size
            &&& match state.phase {
                RewardsPhase::Preparing { step } => outcomes.len() == step && done == steps.take(
                    step as int,
                ),
                RewardsPhase::ReadingEra => {
                    &&& outcomes.len() == steps.len()
                    &&& done == steps
                    &&& !(initial.plan.wait is Sessions)
                },
                RewardsPhase::Awaiting { session } => {
                    &&& awaits_as_planned(initial, outcomes, session)
                    &&& done == steps
                },
                RewardsPhase::Checking { awaited } => {
                    &&& awaits_as_planned(initial, outcomes, awaited)
                    &&& state.checks.phase is Failed || done_through(
                        initial,
                        done,
                        awaited,
                        state.checks.succeeded(),
                    )
                },
                RewardsPhase::Failed => true,
            }
        }),
    decreases outcomes.len(),
{
    let steps = preparing_actions(initial.plan);
    if outcomes.len() == 0 {
        assert(run_done(initial, outcomes) =~= steps.take(0));
        if steps.len() == 0 {
            assert(steps =~= steps.take(0));
        }
    } else {
        let before = outcomes.drop_last();
        lemma_run_progress(initial, before);
        let previous = run_after(initial, before);
        let state = run_after(initial, outcomes);
        let done = run_done(initial, outcomes);
        match previous.phase {
            RewardsPhase::Preparing { step } => {
                if outcomes.last() is Done {
                    assert(done =~= steps.take(step + 1));
                    if step + 1 == steps.len() {
                        assert(steps.take(step + 1) =~= steps);
                    }
                }
            },
            RewardsPhase::Awaiting { session } => {
                if outcomes.last() is Done {
                    let checks = initial.plan.checks_spec(
                        initial.start,
                        session as nat,
                        initial.validators,
                        initial.committee_size,
                    );
                    assert(checks.len() <= usize::MAX);
                    assert(state.checks == CheckState::<E>::initial(checks));
                    assert(done == steps.push(RewardsActionView::AwaitSession { session }));
                    assert(done.take(steps.len() as int) =~= steps);
                    assert(done_through(initial, done, session, 0));
                }
            },
            RewardsPhase::Checking { awaited } => {
                let checks = checks_of(initial, awaited);
                if outcomes.last() is Done {
                    let k = previous.checks.succeeded();
                    let old_done = run_done(initial, before);
                    assert(done == old_done.push(previous.next_action()));
                    assert(k < checks.len());
                    assert(is_check(previous.checks.next_action(), checks[k as int]));
                    assert(state.checks.succeeded() == k + 1);
                    assert forall|i: int| 0 <= i < k + 1 implies #[trigger] check_done(
                        initial,
                        done,
                        awaited,
                        i,
                    ) by {
                        if i < k {
                            assert(check_done(initial, old_done, awaited, i));
                        }
                    }
                    assert(done.take(steps.len() as int) =~= old_done.take(steps.len() as int));
                    assert(done_through(initial, done, awaited, (k + 1) as nat));
                }
            },
            _ => {},
        }
    }
}

/// A scenario is finished only once every step before the wait, the wait, and the
/// check of every session of the range came back as done, each once and in this
/// order. The session that was waited for is the one that the plan makes of the
/// era that was read.
pub proof fn runs_finish_only_when_all_succeeds<E>(
    plan: RewardsPlan,
    start: RewardsStart,
    validators: ValidatorsView,
    committee_size: u32,
    outcomes: Seq<OutcomeView<E>>,
)
    requires
        plan.in_range(start),
        run_expects(
            RewardsState::<E>::initial(plan, start, validators, committee_size),
            outcomes,
        ),
        run_after(
            RewardsState::<E>::initial(plan, start, validators, committee_size),
            outcomes,
        ).is_finished(),
    ensures
        ({
            let initial = RewardsState::<E>::initial(plan, start, validators, committee_size);
            let awaited = run_after(initial, outcomes).phase->Checking_awaited;
            &&& awaits_as_planned(initial, outcomes, awaited)
            &&& done_through(
                initial,
                run_done(initial, outcomes),
                awaited,
                plan.checks_spec(start, awaited as nat, validators, committee_size).len(),
            )
        }),
{
    let initial = RewardsState::<E>::initial(plan, start, validators, committee_size);
    assert forall|awaited: u32| (#[trigger] plan.checks_spec(
        start,
        awaited as nat,
        validators,
        committee_size,
    )).len() <= usize::MAX by {
        assert(awaited <= u32::MAX <= usize::MAX);
    }
    lemma_run_progress(initial, outcomes);
}

/// A step or a check that fails ends the scenario: nothing is expected after it,
/// and its error is what the scenario comes to.
pub proof fn failures_end_the_run<E>(state: RewardsState<E>, error: E, next: OutcomeView<E>)
    requires
        state.valid(),
        state.expects(OutcomeView::Failed(error)),
    ensures
        ({
            let after = state.after(OutcomeView::Failed(error));
            &&& after.is_failed()
            &&& after.error() == Some(error)
            &&& !after.expects(next)
            &&& after.next_action() is Abort || after.next_action() == RewardsActionView::Check(
                CheckActionView::Abort,
            )
        }),
{
}

/// A check is run in order: the members of its session are read, the era too where
/// the chain has to give it, and then the points of the session are checked in
/// that era, with the members that were read and all that the check holds.
pub proof fn checks_use_what_was_read<E>(
    state: CheckState<E>,
    check: usize,
    active: Seq<AccountId>,
    bench: Seq<AccountId>,
    era: u32,
)
    requires
        state.valid(),
        state.phase == (CheckPhase::ReadingMembers { check }),
    ensures
        ({
            let held = state.checks[check as int];
            let read = state.after(OutcomeView::MembersRead { active, bench });
            let points = CheckActionView::CheckPoints {
                session: held.session,
                era: match held.era {
                    ExpectedEra::OfSession => era,
                    ExpectedEra::Era(expected) => expected,
                },
                active,
                bench,
                members_per_session: held.members_per_session,
                max_difference_percent: held.max_difference_percent,
            };
            &&& state.next_action() == (CheckActionView::ReadMembers {
                session: held.session,
                validators: held.validators,
                members_per_session: held.members_per_session,
            })
            &&& read.checks == state.checks
            &&& held.era is OfSession ==> {
                &&& read.next_action() == (CheckActionView::ReadEra { session: held.session })
                &&& read.after(OutcomeView::EraRead(era)).next_action() == points
                &&& read.after(OutcomeView::EraRead(era)).checks == state.checks
            }
            &&& held.era is Era ==> read.next_action() == points
        }),
{
}

/// Once the points of a session are checked, the next check begins, and after the
/// last one nothing is left to do. Without any check nothing is to be done at all.
pub proof fn checks_follow_each_other<E>(
    state: CheckState<E>,
    check: usize,
    era: u32,
    checks: Seq<CheckView>,
)
    requires
        state.valid(),
        state.phase == (CheckPhase::Checking { check, era }),
        checks.len() <= usize::MAX,
    ensures
        ({
            let after = state.after(OutcomeView::Done);
            &&& after.checks == state.checks
            &&& check + 1 < state.checks.len() ==> after.next_action() == (
            CheckActionView::ReadMembers {
                session: state.checks[check + 1].session,
                validators: state.checks[check + 1].validators,
                members_per_session: state.checks[check + 1].members_per_session,
            })
            &&& check + 1 == state.checks.len() ==> after.next_action() is Finish
        }),
        checks.len() == 0 ==> CheckState::<E>::initial(checks).next_action() is Finish,
        checks.len() > 0 ==> CheckState::<E>::initial(checks).next_action() == (
        CheckActionView::ReadMembers {
            session: checks[0].session,
            validators: checks[0].validators,
            members_per_session: checks[0].members_per_session,
        }),
        CheckState::<E>::initial(checks).checks == checks,
{
}

/// Before the wait a scenario takes the actions that its plan asks for, in order:
/// it bonds the stakes of the plan, sets invalid and then valid keys, and forces an
/// era.
pub proof fn actions_follow_the_plan(plan: RewardsPlan)
    ensures
        ({
            let actions = preparing_actions(plan);
            let bonds = if plan.extra_stakes@.len() > 0 {
                1int
            } else {
                0
            };
            let keys = if plan.change_keys {
                2int
            } else {
                0
            };
            let forces = if plan.force_new_era {
                1int
            } else {
                0
            };
            &&& actions.len() == bonds + keys + forces
            &&& bonds == 1 ==> actions[0] == (RewardsActionView::BondExtraStakes {
                stakes: plan.extra_stakes@,
            })
            &&& keys == 2 ==> actions[bonds] == RewardsActionView::SetInvalidKeys && actions[bonds
                + 1] == RewardsActionView::ResetKeys
            &&& forces == 1 ==> actions.last() == RewardsActionView::ForceNewEra
        }),
{
    crate::e2e::rewards::plans_are_followed_in_order(plan);
}

/// A scenario takes one action after the other: each that succeeds is followed by
/// the next one of the plan, the last by the wait. Where an era is waited for, the
/// present one is read first; the wait is followed by the checks of the plan.
pub proof fn scenarios_take_one_action_after_the_other<E>(
    state: RewardsState<E>,
    era: u32,
)
    requires
        state.valid(),
    ensures
        ({
            let actions = preparing_actions(state.plan);
            let done = state.after(OutcomeView::Done);
            &&& state.phase matches RewardsPhase::Preparing { step } ==> {
                &&& state.next_action() == actions[step as int]
                &&& step + 1 < actions.len() ==> done.next_action() == actions[step + 1]
                &&& step + 1 == actions.len() ==> match state.plan.wait {
                    Wait::Sessions(sessions) => done.next_action() matches
                        RewardsActionView::AwaitSession { session } && session
                        == state.start.session + sessions,
                    _ => done.next_action() is ReadCurrentEra,
                }
            }
            &&& state.phase is ReadingEra ==> {
                &&& state.next_action() is ReadCurrentEra
                &&& state.plan.can_await(state.start, era) ==> (state.after(
                    OutcomeView::EraRead(era),
                ).next_action() matches RewardsActionView::AwaitSession { session } && session
                    == state.plan.awaited(state.start, era as nat))
            }
            &&& state.phase matches RewardsPhase::Awaiting { session } ==> {
                &&& state.next_action() == (RewardsActionView::AwaitSession { session })
                &&& done.checks == CheckState::<E>::initial(
                    state.plan.checks_spec(
                        state.start,
                        session as nat,
                        state.validators,
                        state.committee_size,
                    ),
                )
                &&& done.next_action() == RewardsActionView::Check(done.checks.next_action())
            }
            &&& state.phase is Checking ==> state.next_action() == RewardsActionView::Check(
                state.checks.next_action(),
            )
            &&& done.plan == state.plan
            &&& done.start == state.start
            &&& done.validators == state.validators
            &&& done.committee_size == state.committee_size
        }),
{
}

/// A scenario begins with the first action of its plan, or with the wait.
pub proof fn scenarios_begin_with_their_first_action<E>(
    plan: RewardsPlan,
    start: RewardsStart,
    validators: ValidatorsView,
    committee_size: u32,
)
    requires
        plan.in_range(start),
    ensures
        ({
            let initial = RewardsState::<E>::initial(plan, start, validators, committee_size);
            let actions = preparing_actions(plan);
            &&& initial.plan == plan
            &&& initial.start == start
            &&& initial.validators == validators
            &&& initial.committee_size == committee_size
            &&& actions.len() > 0 ==> initial.next_action() == actions[0]
            &&& actions.len() == 0 ==> match plan.wait {
                Wait::Sessions(sessions) => initial.next_action() matches
                    RewardsActionView::AwaitSession { session } && session == start.session
                    + sessions,
                _ => initial.next_action() is ReadCurrentEra,
            }
        }),
{
}

/// What an action on checks is, is all that it holds.
pub proof fn check_actions_are_all_that_they_hold(action: CheckAction)
    ensures
        match action {
            CheckAction::ReadMembers { session, era_validators, members_per_session } => action@
                == (CheckActionView::ReadMembers {
                session,
                validators: era_validators@,
                members_per_session,
            }),
            CheckAction::ReadEra { session } => action@ == (CheckActionView::ReadEra { session }),
            CheckAction::CheckPoints {
                session,
                era,
                active,
                bench,
                members_per_session,
                max_difference_percent,
            } => action@ == (CheckActionView::CheckPoints {
                session,
                era,
                active: active@,
                bench: bench@,
                members_per_session,
                max_difference_percent,
            }),
            CheckAction::Finish => action@ is Finish,
            CheckAction::Abort => action@ is Abort,
        },
{
}

/// What an action of a scenario, and an outcome, are, is all that they hold.
pub proof fn actions_and_outcomes_are_all_that_they_hold<E>(
    action: RewardsAction,
    outcome: RewardsOutcome<E>,
)
    ensures
        match action {
            RewardsAction::BondExtraStakes { stakes } => action@ == (
            RewardsActionView::BondExtraStakes { stakes: stakes@ }),
            RewardsAction::SetInvalidKeys => action@ is SetInvalidKeys,
            RewardsAction::ResetKeys => action@ is ResetKeys,
            RewardsAction::ForceNewEra => action@ is ForceNewEra,
            RewardsAction::ReadCurrentEra => action@ is ReadCurrentEra,
            RewardsAction::AwaitSession { session } => action@ == (
            RewardsActionView::AwaitSession { session }),
            RewardsAction::Check(check) => action@ == RewardsActionView::Check(check@),
            RewardsAction::Abort => action@ is Abort,
        },
        match outcome {
            RewardsOutcome::Done => outcome@ is Done,
            RewardsOutcome::EraRead(era) => outcome@ == OutcomeView::<E>::EraRead(era),
            RewardsOutcome::MembersRead { active, bench } => outcome@ == (OutcomeView::<
                E,
            >::MembersRead { active: active@, bench: bench@ }),
            RewardsOutcome::Failed(error) => outcome@ == OutcomeView::Failed(error),
        },
{
}

/// Checks and scenarios are over exactly where nothing is left to be done: they are
/// finished where the last action was a success, and failed where one was none, with
/// its error.
pub proof fn runs_are_over_when_nothing_is_left<E>(checks: CheckState<E>, state: RewardsState<E>)
    requires
        checks.valid(),
        state.valid(),
    ensures
        checks.is_over() <==> checks.next_action() is Finish || checks.next_action() is Abort,
        checks.next_action() is Abort <==> checks.failure is Some,
        state.is_finished() <==> state.next_action() == RewardsActionView::Check(
            CheckActionView::Finish,
        ),
        state.is_failed() <==> state.next_action() is Abort || state.next_action()
            == RewardsActionView::Check(CheckActionView::Abort),
        state.error() is Some <==> state.is_failed(),
{
}

/// The error of an action is what checks and scenarios come to, and they take no
/// outcome after it.
pub proof fn errors_are_what_runs_come_to<E>(checks: CheckState<E>, error: E)
    requires
        checks.valid(),
        checks.expects(OutcomeView::Failed(error)),
    ensures
        checks.after(OutcomeView::Failed(error)).failure == Some(error),
        checks.after(OutcomeView::Failed(error)).next_action() is Abort,
        checks.after(OutcomeView::Failed(error)).checks == checks.checks,
{
}

/// As long as a run is not over, it takes a failure of what it does next, and the
/// success that belongs to it.
pub proof fn runs_take_what_comes_of_their_actions<E>(
    checks: CheckState<E>,
    state: RewardsState<E>,
    error: E,
    era: u32,
    active: Seq<AccountId>,
    bench: Seq<AccountId>,
)
    requires
        checks.valid(),
        state.valid(),
    ensures
        checks.expects(OutcomeView::Failed(error)) <==> !checks.is_over(),
        checks.next_action() is ReadMembers ==> checks.expects(
            OutcomeView::MembersRead { active, bench },
        ),
        checks.next_action() is ReadEra ==> checks.expects(OutcomeView::EraRead(era)),
        checks.next_action() is CheckPoints ==> checks.expects(OutcomeView::Done),
        state.expects(OutcomeView::Failed(error)) <==> !state.is_finished() && !state.is_failed(),
        state.next_action() is ReadCurrentEra && state.plan.can_await(state.start, era)
            ==> state.expects(OutcomeView::EraRead(era)),
        state.next_action() is BondExtraStakes || state.next_action() is SetInvalidKeys
            || state.next_action() is ResetKeys || state.next_action() is ForceNewEra
            || state.next_action() is AwaitSession ==> state.expects(OutcomeView::Done),
{
}

} // verus!

//! Scenarios on the points that validators are rewarded with.

use vstd::prelude::*;

use crate::client::staking::{
    bond_extra, first_session_of_era, wait_for_full_era_completion, wait_for_next_era,
};
use crate::client::transaction::{AccountId, Call, Extrinsic, Transaction};
use crate::rpc::client::XtStatus;

verus! {

/// The accounts of a node.
#[derive(Clone, Copy, Debug)]
pub struct NodeAccounts {
    pub validator: AccountId,
    pub controller: AccountId,
}

/// How a validator bonds an additional stake: the root transfers it the stake
/// and a fee, then the validator bonds the stake.
#[derive(Debug)]
pub struct ExtraStake {
    pub validator: AccountId,
    pub transfer: Transaction,
    pub bond: Transaction,
}

/// How additional stakes are bonded: first every controller is given funds to
/// cover fees, then the stakes follow one by one.
#[derive(Debug)]
pub struct ExtraStakes {
    pub controllers: Vec<AccountId>,
    pub fee: u128,
    pub stakes: Vec<ExtraStake>,
}

/// Whether the steps bond the additional stake for the validator.
pub open spec fn bonds_extra(
    step: ExtraStake,
    validator: AccountId,
    stake: u128,
    token: u128,
) -> bool {
    &&& step.validator == validator
    &&& step.transfer.extrinsic == Extrinsic::Signed(
        Call::Transfer { to: validator, amount: (stake + token) as u128 },
    )
    &&& step.transfer.label@ == "transfer"@
    &&& step.transfer.status == XtStatus::Finalized
    &&& step.bond.extrinsic == Extrinsic::Signed(Call::BondExtra { value: stake })
    &&& step.bond.label@ == "bond_extra"@
    &&& step.bond.status == XtStatus::Finalized
}

/// How the nodes bond additional stakes, with a token each to cover fees. Nodes
/// without a stake, and stakes without a node, are left out.
pub fn validators_bond_extra_stakes(
    nodes: &Vec<NodeAccounts>,
    additional_stakes: &Vec<u128>,
    token: u128,
) -> (steps: ExtraStakes)
    requires
        forall|i: int|
            0 <= i < additional_stakes@.len() && i < nodes@.len() ==> (
            #[trigger] additional_stakes@[i]) + token <= u128::MAX,
    ensures
        steps.controllers@ == nodes@.map_values(|node: NodeAccounts| node.controller),
        steps.fee == token,
        steps.stakes@.len() == if nodes@.len() <= additional_stakes@.len() {
            nodes@.len()
        } else {
            additional_stakes@.len()
        },
        forall|i: int|
            0 <= i < steps.stakes@.len() ==> bonds_extra(
                #[trigger] steps.stakes@[i],
                nodes@[i].validator,
                additional_stakes@[i],
                token,
            ),
{
    let mut controllers: Vec<AccountId> = Vec::new();
    let mut i: usize = 0;
    while i < nodes.len()
        invariant
            i <= nodes@.len(),
            controllers@.len() == i,
            forall|j: int| 0 <= j < i ==> #[trigger] controllers@[j] == nodes@[j].controller,
        decreases nodes@.len() - i,
    {
        controllers.push(nodes[i].controller);
        i = i + 1;
    }
    proof {
        assert(controllers@ =~= nodes@.map_values(|node: NodeAccounts| node.controller));
    }
    let mut stakes: Vec<ExtraStake> = Vec::new();
    let mut j: usize = 0;
    while j < nodes.len() && j < additional_stakes.len()
        invariant
            j <= nodes@.len(),
            j <= additional_stakes@.len(),
            stakes@.len() == j,
            forall|i: int|
                0 <= i < additional_stakes@.len() && i < nodes@.len() ==> (
                #[trigger] additional_stakes@[i]) + token <= u128::MAX,
            forall|k: int|
                0 <= k < j ==> bonds_extra(
                    #[trigger] stakes@[k],
                    nodes@[k].validator,
                    additional_stakes@[k],
                    token,
                ),
        decreases nodes@.len() - j,
    {
        let validator = nodes[j].validator;
        let stake: u128 = additional_stakes[j];
        stakes.push(
            ExtraStake {
                validator,
                transfer: Transaction {
                    extrinsic: Extrinsic::Signed(
                        Call::Transfer { to: validator, amount: stake + token },
                    ),
                    label: "transfer",
                    status: XtStatus::Finalized,
                },
                bond: bond_extra(stake, XtStatus::Finalized),
            },
        );
        j = j + 1;
    }
    ExtraStakes { controllers, fee: token, stakes }
}

/// The era whose points are expected in a session.
#[derive(Clone, Copy, Debug, PartialEq, Eq, Structural)]
pub enum ExpectedEra {
    /// The one that the chain gives for the session.
    OfSession,
    /// This one.
    Era(u32),
}

/// The validators of an era.
#[derive(Debug, PartialEq, Eq)]
pub struct EraValidators {
    pub reserved: Vec<AccountId>,
    pub non_reserved: Vec<AccountId>,
}

/// What the validators of an era are.
#[verifier::ext_equal]
pub struct ValidatorsView {
    pub reserved: Seq<AccountId>,
    pub non_reserved: Seq<AccountId>,
}

impl View for EraValidators {
    type V = ValidatorsView;

    open spec fn view(&self) -> ValidatorsView {
        ValidatorsView { reserved: self.reserved@, non_reserved: self.non_reserved@ }
    }
}

/// Copies a list of accounts.
pub fn copy_accounts(accounts: &Vec<AccountId>) -> (copy: Vec<AccountId>)
    ensures
        copy@ == accounts@,
{
    let copy = accounts.clone();
    proof {
        assert(copy@ =~= accounts@);
    }
    copy
}

impl Clone for EraValidators {
    fn clone(&self) -> (copy: Self)
        ensures
            copy@ == self@,
    {
        EraValidators {
            reserved: copy_accounts(&self.reserved),
            non_reserved: copy_accounts(&self.non_reserved),
        }
    }
}

/// Maximum difference, in percent, between fractions of total reward that a
/// validator gets: one reckoned by a scenario, the other read from the chain.
pub const MAX_DIFFERENCE_PERCENT: u32 = 7;

/// A check of the points of a session: who is rewarded is found among the
/// validators of the era, so many of whom are in the committee of a session.
#[derive(Debug, PartialEq, Eq)]
pub struct PointsCheck {
    pub session: u32,
    pub era: ExpectedEra,
    pub era_validators: EraValidators,
    pub members_per_session: u32,
    pub max_difference_percent: u32,
}

/// What a check is.
#[verifier::ext_equal]
pub struct CheckView {
    pub session: u32,
    pub era: ExpectedEra,
    pub validators: ValidatorsView,
    pub members_per_session: u32,
    pub max_difference_percent: u32,
}

impl View for PointsCheck {
    type V = CheckView;

    open spec fn view(&self) -> CheckView {
        CheckView {
            session: self.session,
            era: self.era,
            validators: self.era_validators@,
            members_per_session: self.members_per_session,
            max_difference_percent: self.max_difference_percent,
        }
    }
}

/// What a list of checks is.
pub open spec fn checks_view(checks: Seq<PointsCheck>) -> Seq<CheckView> {
    checks.map_values(|check: PointsCheck| check@)
}

/// How long a scenario waits before it checks points.
#[derive(Clone, Copy, Debug, PartialEq, Eq, Structural)]
pub enum Wait {
    /// Until the next era begins.
    NextEra,
    /// Until a full era is over.
    FullEra,
    /// Until this many sessions after the one in which the scenario started.
    Sessions(u32),
}

/// What a scenario on points does once the validators are set up, until it
/// checks points.
#[derive(Debug)]
pub struct RewardsPlan {
    /// Bonds these additional stakes, one for each validator; none to skip this.
    pub extra_stakes: Vec<u128>,
    /// Sets invalid session keys for a validator, and valid ones again.
    pub change_keys: bool,
    pub force_new_era: bool,
    pub wait: Wait,
    /// Whether points are expected in the era that the chain gives for a
    /// session, or in the era in which the scenario started.
    pub era_of_session: bool,
}

/// What a scenario finds once the validators are set up.
#[derive(Clone, Copy, Debug, PartialEq, Eq, Structural)]
pub struct RewardsStart {
    /// The era in which the validators are in force.
    pub era: u32,
    /// The session in which the scenario started.
    pub session: u32,
    pub sessions_per_era: u32,
}

/// How many sessions after the call a forced era comes into effect.
pub const SESSIONS_UNTIL_FORCED_ERA: u32 = 2;

/// Checks the points of the era that the validators were set up for.
pub fn points_basic() -> (plan: RewardsPlan)
    ensures
        plan.extra_stakes@.len() == 0,
        !plan.change_keys,
        !plan.force_new_era,
        plan.wait == Wait::NextEra,
        plan.era_of_session,
{
    RewardsPlan {
        extra_stakes: Vec::new(),
        change_keys: false,
        force_new_era: false,
        wait: Wait::NextEra,
        era_of_session: true,
    }
}

fn multiples(a: u128, b: u128, c: u128, d: u128, e: u128, bond: u128) -> (stakes: Vec<u128>)
    requires
        a * bond <= u128::MAX,
        b * bond <= u128::MAX,
        c * bond <= u128::MAX,
        d * bond <= u128::MAX,
        e * bond <= u128::MAX,
    ensures
        stakes@ == seq![
            (a * bond) as u128,
            (b * bond) as u128,
            (c * bond) as u128,
            (d * bond) as u128,
            (e * bond) as u128,
        ],
{
    let mut stakes: Vec<u128> = Vec::new();
    stakes.push(a * bond);
    stakes.push(b * bond);
    stakes.push(c * bond);
    stakes.push(d * bond);
    stakes.push(e * bond);
    proof {
        assert(stakes@ =~= seq![
            (a * bond) as u128,
            (b * bond) as u128,
            (c * bond) as u128,
            (d * bond) as u128,
            (e * bond) as u128,
        ]);
    }
    stakes
}

/// Bonds extra stakes, in multiples of the smallest bond of a validator, and
/// checks that reward points are calculated correctly afterward.
pub fn points_stake_change(min_validator_bond: u128) -> (plan: RewardsPlan)
    requires
        8 * min_validator_bond <= u128::MAX,
    ensures
        plan.extra_stakes@ == seq![
            (8 * min_validator_bond) as u128,
            (6 * min_validator_bond) as u128,
            (4 * min_validator_bond) as u128,
            (2 * min_validator_bond) as u128,
            0u128,
        ],
        !plan.change_keys,
        !plan.force_new_era,
        plan.wait == Wait::NextEra,
        !plan.era_of_session,
{
    RewardsPlan {
        extra_stakes: multiples(8, 6, 4, 2, 0, min_validator_bond),
        change_keys: false,
        force_new_era: false,
        wait: Wait::NextEra,
        era_of_session: false,
    }
}

/// Sets invalid session keys for one validator, re-sets the keys to valid ones
/// and checks that reward points are calculated correctly afterward.
pub fn disable_node() -> (plan: RewardsPlan)
    ensures
        plan.extra_stakes@.len() == 0,
        plan.change_keys,
        !plan.force_new_era,
        plan.wait == Wait::FullEra,
        plan.era_of_session,
{
    RewardsPlan {
        extra_stakes: Vec::new(),
        change_keys: true,
        force_new_era: false,
        wait: Wait::FullEra,
        era_of_session: true,
    }
}

/// Forces a new era to begin, and checks that reward points are calculated
/// correctly for three sessions: immediately following the forcing call, in the
/// subsequent, interim session, when the new era has not yet started, and in
/// the next session, when the new era has already begun.
pub fn force_new_era() -> (plan: RewardsPlan)
    ensures
        plan.extra_stakes@.len() == 0,
        !plan.change_keys,
        plan.force_new_era,
        plan.wait == Wait::Sessions(SESSIONS_UNTIL_FORCED_ERA),
        plan.wait == Wait::Sessions(2),
        !plan.era_of_session,
{
    RewardsPlan {
        extra_stakes: Vec::new(),
        change_keys: false,
        force_new_era: true,
        wait: Wait::Sessions(SESSIONS_UNTIL_FORCED_ERA),
        era_of_session: false,
    }
}

/// Changes the stake of each validator and then forces a new era. Until the
/// forced era rewards are calculated using old stakes, and after two sessions
/// they are adjusted to the new stakes.
pub fn change_stake_and_force_new_era(min_validator_bond: u128) -> (plan: RewardsPlan)
    requires
        11 * min_validator_bond <= u128::MAX,
    ensures
        plan.extra_stakes@ == seq![
            (7 * min_validator_bond) as u128,
            (2 * min_validator_bond) as u128,
            (11 * min_validator_bond) as u128,
            0u128,
            (4 * min_validator_bond) as u128,
        ],
        !plan.change_keys,
        plan.force_new_era,
        plan.wait == Wait::Sessions(SESSIONS_UNTIL_FORCED_ERA),
        plan.wait == Wait::Sessions(2),
        !plan.era_of_session,
{
    RewardsPlan {
        extra_stakes: multiples(7, 2, 11, 0, 4, min_validator_bond),
        change_keys: false,
        force_new_era: true,
        wait: Wait::Sessions(SESSIONS_UNTIL_FORCED_ERA),
        era_of_session: false,
    }
}

/// A step of a scenario on points.
#[derive(Clone, Copy, Debug, PartialEq, Eq, Structural)]
pub enum RewardsStep {
    /// Bond the additional stakes of the plan.
    BondExtraStakes,
    /// Set invalid session keys for a validator, which disables it.
    SetInvalidKeys,
    /// Set valid session keys for the validator again.
    ResetKeys,
    /// Force a new era, and wait until that is finalized.
    ForceNewEra,
    /// Wait as the plan says.
    Await,
    /// Check the points.
    CheckPoints,
}

impl RewardsPlan {
    /// What the scenario does before it waits, in order.
    pub open spec fn preparation(self) -> Seq<RewardsStep> {
        let stakes: Seq<RewardsStep> = if self.extra_stakes@.len() > 0 {
            seq![RewardsStep::BondExtraStakes]
        } else {
            seq![]
        };
        let keys: Seq<RewardsStep> = if self.change_keys {
            seq![RewardsStep::SetInvalidKeys, RewardsStep::ResetKeys]
        } else {
            seq![]
        };
        let era: Seq<RewardsStep> = if self.force_new_era {
            seq![RewardsStep::ForceNewEra]
        } else {
            seq![]
        };
        stakes + keys + era
    }

    /// What the scenario does, in order.
    pub open spec fn steps_spec(self) -> Seq<RewardsStep> {
        self.preparation() + seq![RewardsStep::Await, RewardsStep::CheckPoints]
    }

    /// What the scenario does, in order.
    pub fn steps(&self) -> (steps: Vec<RewardsStep>)
        ensures
            steps@ == self.steps_spec(),
    {
        let mut steps: Vec<RewardsStep> = self.prepare();
        steps.push(RewardsStep::Await);
        steps.push(RewardsStep::CheckPoints);
        proof {
            assert(steps@ =~= self.steps_spec());
        }
        steps
    }

    /// What the scenario does before it waits, in order.
    pub fn prepare(&self) -> (steps: Vec<RewardsStep>)
        ensures
            steps@ == self.preparation(),
    {
        let mut steps: Vec<RewardsStep> = Vec::new();
        if self.extra_stakes.len() > 0 {
            steps.push(RewardsStep::BondExtraStakes);
        }
        if self.change_keys {
            steps.push(RewardsStep::SetInvalidKeys);
            steps.push(RewardsStep::ResetKeys);
        }
        if self.force_new_era {
            steps.push(RewardsStep::ForceNewEra);
        }
        proof {
            assert(steps@ =~= self.preparation());
        }
        steps
    }

    /// The session that is waited for, given the era at that time.
    pub open spec fn awaited(self, start: RewardsStart, current_era: nat) -> nat {
        match self.wait {
            Wait::NextEra => (current_era + 1) * start.sessions_per_era as nat,
            Wait::FullEra => (current_era + 2) * start.sessions_per_era as nat,
            Wait::Sessions(sessions) => (start.session + sessions) as nat,
        }
    }

    /// Whether the session that is waited for is in range, given the era at that
    /// time.
    pub open spec fn can_await(self, start: RewardsStart, current_era: u32) -> bool {
        &&& self.wait == Wait::NextEra ==> current_era + 1 <= u32::MAX
        &&& self.wait == Wait::FullEra ==> current_era + 2 <= u32::MAX
        &&& self.awaited(start, current_era as nat) <= u32::MAX
    }

    /// The session to wait for before points are checked, given the era at that
    /// time.
    pub fn awaited_session(&self, start: &RewardsStart, current_era: u32) -> (session: u32)
        requires
            self.can_await(*start, current_era),
        ensures
            session == self.awaited(*start, current_era as nat),
    {
        match self.wait {
            Wait::NextEra => wait_for_next_era(current_era, start.sessions_per_era).session,
            Wait::FullEra => wait_for_full_era_completion(
                current_era,
                start.sessions_per_era,
            ).session,
            Wait::Sessions(sessions) => start.session + sessions,
        }
    }

    /// The checks of a scenario that waited for an era: every session from the
    /// start of the era in which the validators came into force.
    pub open spec fn era_checks(
        self,
        start: RewardsStart,
        awaited: nat,
        validators: ValidatorsView,
        committee_size: u32,
    ) -> Seq<CheckView> {
        let first = start.era * start.sessions_per_era;
        Seq::new(
            if first <= awaited {
                (awaited - first) as nat
            } else {
                0
            },
            |i: int|
                CheckView {
                    session: (first + i) as u32,
                    era: if self.era_of_session {
                        ExpectedEra::OfSession
                    } else {
                        ExpectedEra::Era(start.era)
                    },
                    validators,
                    members_per_session: committee_size,
                    max_difference_percent: MAX_DIFFERENCE_PERCENT,
                },
        )
    }

    /// The checks of a scenario, once the awaited session has come.
    pub open spec fn checks_spec(
        self,
        start: RewardsStart,
        awaited: nat,
        validators: ValidatorsView,
        committee_size: u32,
    ) -> Seq<CheckView> {
        match self.wait {
            Wait::Sessions(_) => forced_era_checks(
                start.session,
                start.era,
                validators,
                committee_size,
                MAX_DIFFERENCE_PERCENT,
            ),
            _ => self.era_checks(start, awaited, validators, committee_size),
        }
    }

    /// Whether the numbers of the sessions and eras that the scenario speaks of
    /// are in range.
    pub open spec fn in_range(self, start: RewardsStart) -> bool {
        match self.wait {
            Wait::Sessions(sessions) => {
                &&& start.session + sessions <= u32::MAX
                &&& start.session + 2 <= u32::MAX
                &&& start.era + 1 <= u32::MAX
            },
            _ => start.era * start.sessions_per_era <= u32::MAX,
        }
    }

    /// The points to check, once the awaited session has come.
    pub fn checks(
        &self,
        start: &RewardsStart,
        awaited_session: u32,
        era_validators: &EraValidators,
        committee_size: u32,
    ) -> (checks: Vec<PointsCheck>)
        requires
            self.in_range(*start),
        ensures
            checks_view(checks@) == self.checks_spec(
                *start,
                awaited_session as nat,
                era_validators@,
                committee_size,
            ),
    {
        match self.wait {
            Wait::Sessions(_) => check_points_after_force_new_era(
                start.session,
                start.era,
                &era_validators.reserved,
                &era_validators.non_reserved,
                committee_size,
                MAX_DIFFERENCE_PERCENT,
            ),
            _ => {
                let first: u32 = first_session_of_era(start.era, start.sessions_per_era);
                let era: ExpectedEra = if self.era_of_session {
                    ExpectedEra::OfSession
                } else {
                    ExpectedEra::Era(start.era)
                };
                let mut checks: Vec<PointsCheck> = Vec::new();
                let mut session: u32 = first;
                while session < awaited_session
                    invariant
                        first <= session,
                        first <= awaited_session ==> session <= awaited_session,
                        first > awaited_session ==> session == first,
                        checks@.len() == session - first,
                        forall|i: int|
                            0 <= i < checks@.len() ==> (#[trigger] checks@[i])@ == (CheckView {
                                session: (first + i) as u32,
                                era,
                                validators: era_validators@,
                                members_per_session: committee_size,
                                max_difference_percent: MAX_DIFFERENCE_PERCENT,
                            }),
                    decreases awaited_session - session,
                {
                    checks.push(
                        PointsCheck {
                            session,
                            era,
                            era_validators: era_validators.clone(),
                            members_per_session: committee_size,
                            max_difference_percent: MAX_DIFFERENCE_PERCENT,
                        },
                    );
                    session = session + 1;
                }
                proof {
                    assert(checks_view(checks@) =~= self.era_checks(
                        *start,
                        awaited_session as nat,
                        era_validators@,
                        committee_size,
                    ));
                }
                checks
            },
        }
    }
}

/// The checks after a forced era. Once a new era is forced in session k, the new
/// era does not come into effect until session k + 2.
pub open spec fn forced_era_checks(
    session: u32,
    era: u32,
    validators: ValidatorsView,
    members_per_session: u32,
    max_difference_percent: u32,
) -> Seq<CheckView> {
    Seq::new(
        3,
        |i: int|
            CheckView {
                session: (session + i) as u32,
                era: ExpectedEra::Era(
                    if i < 2 {
                        era
                    } else {
                        (era + 1) as u32
                    },
                ),
                validators,
                members_per_session,
                max_difference_percent,
            },
    )
}

/// The points to check after a new era was forced in the session: immediately
/// following the call, in the interim session, and in the first session of the
/// new era.
pub fn check_points_after_force_new_era(
    start_session: u32,
    start_era: u32,
    reserved_members: &Vec<AccountId>,
    non_reserved_members: &Vec<AccountId>,
    members_per_session: u32,
    max_difference_percent: u32,
) -> (checks: Vec<PointsCheck>)
    requires
        start_session + 2 <= u32::MAX,
        start_era + 1 <= u32::MAX,
    ensures
        checks_view(checks@) == forced_era_checks(
            start_session,
            start_era,
            ValidatorsView { reserved: reserved_members@, non_reserved: non_reserved_members@ },
            members_per_session,
            max_difference_percent,
        ),
{
    let ghost validators = ValidatorsView {
        reserved: reserved_members@,
        non_reserved: non_reserved_members@,
    };
    let mut checks: Vec<PointsCheck> = Vec::new();
    let mut idx: u32 = 0;
    while idx < 3
        invariant
            idx <= 3,
            start_session + 2 <= u32::MAX,
            start_era + 1 <= u32::MAX,
            checks@.len() == idx,
            validators == (ValidatorsView {
                reserved: reserved_members@,
                non_reserved: non_reserved_members@,
            }),
            forall|i: int|
                0 <= i < checks@.len() ==> (#[trigger] checks@[i])@ == (CheckView {
                    session: (start_session + i) as u32,
                    era: ExpectedEra::Era((start_era + i / 2) as u32),
                    validators,
                    members_per_session,
                    max_difference_percent,
                }),
        decreases 3 - idx,
    {
        let session: u32 = start_session + idx;
        let era: u32 = start_era + idx / 2;
        checks.push(
            PointsCheck {
                session,
                era: ExpectedEra::Era(era),
                era_validators: EraValidators {
                    reserved: copy_accounts(reserved_members),
                    non_reserved: copy_accounts(non_reserved_members),
                },
                members_per_session,
                max_difference_percent,
            },
        );
        idx = idx + 1;
    }
    proof {
        assert(checks_view(checks@) =~= forced_era_checks(
            start_session,
            start_era,
            validators,
            members_per_session,
            max_difference_percent,
        ));
    }
    checks
}

/// A scenario that waits for an era checks every session from the start of its
/// own era to the awaited one, each once and in order.
pub proof fn every_session_is_checked(
    plan: RewardsPlan,
    start: RewardsStart,
    awaited: nat,
    validators: ValidatorsView,
    committee_size: u32,
    session: u32,
)
    requires
        start.era * start.sessions_per_era <= session < awaited <= u32::MAX,
    ensures
        ({
            let checks = plan.era_checks(start, awaited, validators, committee_size);
            let i = session - start.era * start.sessions_per_era;
            &&& 0 <= i < checks.len()
            &&& checks[i].session == session
            &&& forall|i: int, j: int|
                0 <= i < j < checks.len() ==> (#[trigger] checks[i]).session < (
                #[trigger] checks[j]).session
        }),
{
}

/// Before it waits a scenario does what its plan asks for and nothing else: it
/// bonds stakes first, then sets invalid keys and right after that valid ones, and
/// forces an era last. After that it waits, and then checks points.
pub proof fn plans_are_followed_in_order(plan: RewardsPlan)
    ensures
        ({
            let steps = plan.preparation();
            let all = plan.steps_spec();
            let bonds = if plan.extra_stakes@.len() > 0 {
                1int
            } else {
                0
            };
            let keys = if plan.change_keys {
                2int
            } else {
                0
            };
            let forces = if plan.force_new_era {
                1int
            } else {
                0
            };
            &&& steps.len() == bonds + keys + forces
            &&& bonds == 1 ==> steps[0] == RewardsStep::BondExtraStakes
            &&& keys == 2 ==> steps[bonds] == RewardsStep::SetInvalidKeys && steps[bonds + 1]
                == RewardsStep::ResetKeys
            &&& forces == 1 ==> steps.last() == RewardsStep::ForceNewEra
            &&& all.len() == steps.len() + 2
            &&& all.take(steps.len() as int) == steps
            &&& all[steps.len() as int] == RewardsStep::Await
            &&& all.last() == RewardsStep::CheckPoints
        }),
{
    let steps = plan.preparation();
    assert(plan.steps_spec().take(steps.len() as int) =~= steps);
}

/// A scenario that waits for an era waits for its first session: that of the next
/// era, or of the one after that, a whole era later. One that waits for sessions
/// counts them from where it started.
pub proof fn eras_are_waited_for_by_their_first_session(
    plan: RewardsPlan,
    start: RewardsStart,
    current_era: nat,
    session: nat,
)
    ensures
        plan.wait == Wait::NextEra && start.sessions_per_era > 0 ==> {
            let awaited = plan.awaited(start, current_era);
            &&& awaited % start.sessions_per_era as nat == 0
            &&& awaited / start.sessions_per_era as nat == current_era + 1
        },
        plan.wait == Wait::FullEra && start.sessions_per_era > 0 ==> {
            let awaited = plan.awaited(start, current_era);
            &&& awaited % start.sessions_per_era as nat == 0
            &&& awaited / start.sessions_per_era as nat == current_era + 2
        },
        plan.wait matches Wait::Sessions(sessions) ==> plan.awaited(start, current_era)
            == start.session + sessions,
        start.sessions_per_era == 0 && !(plan.wait is Sessions) ==> plan.awaited(
            start,
            current_era,
        ) == 0,
{
    let s = start.sessions_per_era as int;
    if s > 0 {
        vstd::arithmetic::div_mod::lemma_fundamental_div_mod_converse(
            (current_era + 1) * s,
            s,
            (current_era + 1) as int,
            0,
        );
        vstd::arithmetic::div_mod::lemma_fundamental_div_mod_converse(
            (current_era + 2) * s,
            s,
            (current_era + 2) as int,
            0,
        );
    } else {
        assert((current_era + 1) * s == 0) by (nonlinear_arith)
            requires
                s == 0,
        ;
        assert((current_era + 2) * s == 0) by (nonlinear_arith)
            requires
                s == 0,
        ;
    }
}

/// A scenario that waits for an era makes a check for each session from the first
/// of its own era to the one before the awaited one, with the validators and the
/// size of the committee that it was given, a difference of at most seven percent,
/// and either the era that the chain gives or its own.
pub proof fn checks_hold_what_the_scenario_was_given(
    plan: RewardsPlan,
    start: RewardsStart,
    awaited: nat,
    validators: ValidatorsView,
    committee_size: u32,
    i: int,
)
    requires
        !(plan.wait is Sessions),
        awaited <= u32::MAX,
    ensures
        ({
            let checks = plan.checks_spec(start, awaited, validators, committee_size);
            let first = start.era * start.sessions_per_era;
            &&& first <= awaited ==> checks.len() == awaited - first
            &&& first > awaited ==> checks.len() == 0
            &&& 0 <= i < checks.len() ==> {
                &&& checks[i].session == first + i
                &&& checks[i].validators == validators
                &&& checks[i].members_per_session == committee_size
                &&& checks[i].max_difference_percent == 7
                &&& plan.era_of_session ==> checks[i].era == ExpectedEra::OfSession
                &&& !plan.era_of_session ==> checks[i].era == ExpectedEra::Era(start.era)
            }
        }),
{
    assert(0 <= start.era * start.sessions_per_era) by (nonlinear_arith);
}

/// After a forced era the session of the call, the one after it and the one after
/// that are checked, the first two in the era of the call and the third in the next
/// one, each with the validators, the size of the committee and the difference that
/// were given.
pub proof fn forced_eras_begin_two_sessions_later(
    session: u32,
    era: u32,
    validators: ValidatorsView,
    members_per_session: u32,
    max_difference_percent: u32,
    i: int,
)
    requires
        session + 2 <= u32::MAX,
        era + 1 <= u32::MAX,
    ensures
        ({
            let checks = forced_era_checks(
                session,
                era,
                validators,
                members_per_session,
                max_difference_percent,
            );
            &&& checks.len() == 3
            &&& checks[0].session == session
            &&& checks[1].session == session + 1
            &&& checks[2].session == session + 2
            &&& checks[0].era == ExpectedEra::Era(era)
            &&& checks[1].era == ExpectedEra::Era(era)
            &&& checks[2].era matches ExpectedEra::Era(next) && next == era + 1
            &&& 0 <= i < 3 ==> checks[i].validators == validators && checks[i].members_per_session
                == members_per_session && checks[i].max_difference_percent
                == max_difference_percent
        }),
{
}

/// A scenario that waits for sessions checks what a forced era calls for.
pub proof fn waits_for_sessions_check_a_forced_era(
    plan: RewardsPlan,
    start: RewardsStart,
    awaited: nat,
    validators: ValidatorsView,
    committee_size: u32,
)
    requires
        plan.wait is Sessions,
    ensures
        plan.checks_spec(start, awaited, validators, committee_size) == forced_era_checks(
            start.session,
            start.era,
            validators,
            committee_size,
            7,
        ),
{
}

/// A validator that bonds an additional stake is transferred the stake and a token
/// more, and bonds exactly the stake; both are waited for until they are finalized.
pub proof fn stakes_are_transferred_and_bonded(
    step: ExtraStake,
    validator: AccountId,
    stake: u128,
    token: u128,
)
    requires
        bonds_extra(step, validator, stake, token),
        stake + token <= u128::MAX,
    ensures
        step.validator == validator,
        step.transfer.extrinsic matches Extrinsic::Signed(Call::Transfer { to, amount }) && to
            == validator && amount == stake + token,
        step.bond.extrinsic == Extrinsic::Signed(Call::BondExtra { value: stake }),
        step.transfer.status == XtStatus::Finalized,
        step.bond.status == XtStatus::Finalized,
        step.transfer.label@ == "transfer"@,
        step.bond.label@ == "bond_extra"@,
{
}

/// What the validators of an era and a check are, is all that they hold; a list of
/// checks is the list of what each of them is.
pub proof fn checks_are_all_that_they_hold(
    validators: EraValidators,
    check: PointsCheck,
    checks: Seq<PointsCheck>,
    i: int,
)
    ensures
        validators@.reserved == validators.reserved@,
        validators@.non_reserved == validators.non_reserved@,
        check@.session == check.session,
        check@.era == check.era,
        check@.validators == check.era_validators@,
        check@.members_per_session == check.members_per_session,
        check@.max_difference_percent == check.max_difference_percent,
        checks_view(checks).len() == checks.len(),
        0 <= i < checks.len() ==> checks_view(checks)[i] == checks[i]@,
{
}

/// A plan can be carried out, and waited for, as long as the numbers of the
/// sessions and eras that it speaks of are in range.
pub proof fn plans_are_in_range_of_their_numbers(
    plan: RewardsPlan,
    start: RewardsStart,
    current_era: u32,
)
    ensures
        plan.wait matches Wait::Sessions(sessions) ==> start.session + sessions <= u32::MAX
            && start.session + 2 <= u32::MAX && start.era + 1 <= u32::MAX ==> plan.in_range(start)
            && plan.can_await(start, current_era),
        !(plan.wait is Sessions) && start.era * start.sessions_per_era <= u32::MAX
            ==> plan.in_range(start),
        plan.wait == Wait::NextEra && current_era + 1 <= u32::MAX && (current_era + 1)
            * start.sessions_per_era <= u32::MAX ==> plan.can_await(start, current_era),
        plan.wait == Wait::FullEra && current_era + 2 <= u32::MAX && (current_era + 2)
            * start.sessions_per_era <= u32::MAX ==> plan.can_await(start, current_era),
{
}

} // verus!

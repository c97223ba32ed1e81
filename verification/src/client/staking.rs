//! Staking: bonding, validating, nominating and paying out.

use vstd::prelude::*;

use crate::client::transaction::{
    AccountId, Call, Extrinsic, Perbill, RewardDestination, Transaction, PARTS_PER_PERCENT,
};
use crate::rpc::client::XtStatus;

verus! {

/// Bonds a stake of the signer, whose rewards are staked.
pub fn bond(initial_stake: u128, controller: AccountId, status: XtStatus) -> (xt: Transaction)
    ensures
        xt.extrinsic == Extrinsic::Signed(
            Call::Bond { controller, value: initial_stake, payee: RewardDestination::Staked },
        ),
        xt.label@ == "bond"@,
        xt.status == status,
{
    Transaction {
        extrinsic: Extrinsic::Signed(
            Call::Bond { controller, value: initial_stake, payee: RewardDestination::Staked },
        ),
        label: "bond",
        status,
    }
}

/// The transactions that bond a stake for each of the accounts, each its own
/// controller, with the account that signs each.
pub fn multi_bond(bonders: &Vec<AccountId>, stake: u128) -> (xts: Vec<(AccountId, Transaction)>)
    ensures
        xts@.len() == bonders@.len(),
        forall|i: int|
            #![trigger xts@[i]]
            0 <= i < xts@.len() ==> {
                &&& xts@[i].0 == bonders@[i]
                &&& xts@[i].1.extrinsic == Extrinsic::Signed(
                    Call::Bond {
                        controller: bonders@[i],
                        value: stake,
                        payee: RewardDestination::Staked,
                    },
                )
                &&& xts@[i].1.label@ == "bond"@
                &&& xts@[i].1.status == XtStatus::InBlock
            },
{
    let mut xts: Vec<(AccountId, Transaction)> = Vec::new();
    let mut i: usize = 0;
    while i < bonders.len()
        invariant
            i <= bonders@.len(),
            xts@.len() == i,
            forall|j: int|
                #![trigger xts@[j]]
                0 <= j < i ==> {
                    &&& xts@[j].0 == bonders@[j]
                    &&& xts@[j].1.extrinsic == Extrinsic::Signed(
                        Call::Bond {
                            controller: bonders@[j],
                            value: stake,
                            payee: RewardDestination::Staked,
                        },
                    )
                    &&& xts@[j].1.label@ == "bond"@
                    &&& xts@[j].1.status == XtStatus::InBlock
                },
        decreases bonders@.len() - i,
    {
        xts.push((bonders[i], bond(stake, bonders[i], XtStatus::InBlock)));
        i = i + 1;
    }
    xts
}

/// Makes the signer a validator with the commission, open to nominators.
pub fn validate(validator_commission_percentage: u8, status: XtStatus) -> (xt: Transaction)
    ensures
        xt.extrinsic matches Extrinsic::Signed(Call::Validate { commission, blocked }) && !blocked
            && commission.0 == PARTS_PER_PERCENT * (if validator_commission_percentage <= 100 {
            validator_commission_percentage as int
        } else {
            100
        }),
        xt.label@ == "validate"@,
        xt.status == status,
{
    let commission = Perbill::from_percent(validator_commission_percentage);
    Transaction {
        extrinsic: Extrinsic::Signed(Call::Validate { commission, blocked: false }),
        label: "validate",
        status,
    }
}

/// Sets the limits of staking, with a chill threshold of zero.
pub fn set_staking_limits(
    minimal_nominator_stake: u128,
    minimal_validator_stake: u128,
    max_nominators_count: Option<u32>,
    max_validators_count: Option<u32>,
    status: XtStatus,
) -> (xt: Transaction)
    ensures
        xt.extrinsic == Extrinsic::Sudo(
            Call::SetStakingLimits {
                minimal_nominator_stake,
                minimal_validator_stake,
                max_nominators_count,
                max_validators_count,
                threshold: 0,
            },
        ),
        xt.label@ == "set_staking_limits"@,
        xt.status == status,
{
    Transaction {
        extrinsic: Extrinsic::Sudo(
            Call::SetStakingLimits {
                minimal_nominator_stake,
                minimal_validator_stake,
                max_nominators_count,
                max_validators_count,
                threshold: 0,
            },
        ),
        label: "set_staking_limits",
        status,
    }
}

/// Forces a new era.
pub fn force_new_era(status: XtStatus) -> (xt: Transaction)
    ensures
        xt.extrinsic == Extrinsic::Sudo(Call::ForceNewEra),
        xt.label@ == "force_new_era"@,
        xt.status == status,
{
    Transaction {
        extrinsic: Extrinsic::Sudo(Call::ForceNewEra),
        label: "force_new_era",
        status,
    }
}

/// An era that is waited for, and the session in which it begins.
#[derive(Clone, Copy, Debug, PartialEq, Eq, Structural)]
pub struct AwaitedEra {
    pub era: u32,
    pub session: u32,
}

/// The first session of an era.
pub fn first_session_of_era(era: u32, sessions_per_era: u32) -> (session: u32)
    requires
        era * sessions_per_era <= u32::MAX,
    ensures
        session == era * sessions_per_era,
{
    era * sessions_per_era
}

fn wait_for_era_completion(next_era_index: u32, sessions_per_era: u32) -> (awaited: AwaitedEra)
    requires
        next_era_index * sessions_per_era <= u32::MAX,
    ensures
        awaited.era == next_era_index,
        awaited.session == next_era_index * sessions_per_era,
{
    AwaitedEra {
        era: next_era_index,
        session: first_session_of_era(next_era_index, sessions_per_era),
    }
}

/// What to wait for until an era has passed from its start to its end.
///
/// Staking works in such a way that when a controller is requested to be a
/// validator in era N, the changes are applied in era N+1 (so the new validator
/// is receiving points in N+1), so that N+1 has to finish in order to claim the
/// reward in era N+2 for the era N+1.
pub fn wait_for_full_era_completion(current_era: u32, sessions_per_era: u32) -> (awaited:
    AwaitedEra)
    requires
        current_era + 2 <= u32::MAX,
        (current_era + 2) * sessions_per_era <= u32::MAX,
    ensures
        awaited.era == current_era + 2,
        awaited.session == (current_era + 2) * sessions_per_era,
{
    wait_for_era_completion(current_era + 2, sessions_per_era)
}

/// What to wait for until the next era begins.
pub fn wait_for_next_era(current_era: u32, sessions_per_era: u32) -> (awaited: AwaitedEra)
    requires
        current_era + 1 <= u32::MAX,
        (current_era + 1) * sessions_per_era <= u32::MAX,
    ensures
        awaited.era == current_era + 1,
        awaited.session == (current_era + 1) * sessions_per_era,
{
    wait_for_era_completion(current_era + 1, sessions_per_era)
}

/// Pays out the stakers of a validator for an era.
pub fn payout_stakers(stash: AccountId, era: u32) -> (xt: Transaction)
    ensures
        xt.extrinsic == Extrinsic::Signed(Call::PayoutStakers { stash, era }),
        xt.label@ == "payout stakers"@,
        xt.status == XtStatus::InBlock,
{
    Transaction {
        extrinsic: Extrinsic::Signed(Call::PayoutStakers { stash, era }),
        label: "payout stakers",
        status: XtStatus::InBlock,
    }
}

/// The payout that is checked for locked balances: that of the era before.
pub fn payout_stakers_of_previous_era(stash: AccountId, era: u32) -> (xt: Transaction)
    requires
        era > 0,
    ensures
        xt.extrinsic == Extrinsic::Signed(
            Call::PayoutStakers { stash, era: (era - 1) as u32 },
        ),
        xt.label@ == "payout stakers"@,
        xt.status == XtStatus::InBlock,
{
    payout_stakers(stash, era - 1)
}

/// Whether a payout raised the first lock of the account at the position.
pub open spec fn paid(before: Seq<Vec<u128>>, after: Seq<Vec<u128>>, i: int) -> bool {
    after[i]@[0] > before[i]@[0]
}

/// An account whose first lock a payout did not raise.
#[derive(Clone, Copy, Debug, PartialEq, Eq)]
pub struct MissingPayout {
    pub account: AccountId,
    pub before: u128,
    pub after: u128,
}

/// Checks that a payout raised the first lock of each account: the amounts that
/// were locked on each account before and after are given in the order of the
/// accounts. Names the first account for which it did not.
pub fn assert_locked_balances(
    accounts: &Vec<AccountId>,
    before: &Vec<Vec<u128>>,
    after: &Vec<Vec<u128>>,
) -> (result: Result<(), MissingPayout>)
    requires
        forall|i: int| 0 <= i < before@.len() ==> (#[trigger] before@[i])@.len() > 0,
        forall|i: int| 0 <= i < after@.len() ==> (#[trigger] after@[i])@.len() > 0,
    ensures
        result is Ok <==> forall|i: int|
            #![trigger paid(before@, after@, i)]
            0 <= i < accounts@.len() && i < before@.len() && i < after@.len() ==> paid(
                before@,
                after@,
                i,
            ),
        result matches Err(missing) ==> exists|i: int|
            0 <= i < accounts@.len() && i < before@.len() && i < after@.len()
                && !(#[trigger] paid(before@, after@, i)) && (forall|j: int|
                0 <= j < i ==> #[trigger] paid(before@, after@, j)) && missing == (MissingPayout {
                account: accounts@[i],
                before: before@[i]@[0],
                after: after@[i]@[0],
            }),
{
    let mut i: usize = 0;
    while i < accounts.len() && i < before.len() && i < after.len()
        invariant
            i <= accounts@.len(),
            i <= before@.len(),
            i <= after@.len(),
            forall|j: int| 0 <= j < before@.len() ==> (#[trigger] before@[j])@.len() > 0,
            forall|j: int| 0 <= j < after@.len() ==> (#[trigger] after@[j])@.len() > 0,
            forall|j: int| 0 <= j < i ==> #[trigger] paid(before@, after@, j),
        decreases accounts@.len() - i,
    {
        let amount_before: u128 = before[i][0];
        let amount_after: u128 = after[i][0];
        if amount_after <= amount_before {
            proof {
                assert(!paid(before@, after@, i as int));
            }
            return Err(
                MissingPayout { account: accounts[i], before: amount_before, after: amount_after },
            );
        }
        proof {
            assert(paid(before@, after@, i as int));
        }
        i = i + 1;
    }
    Ok(())
}

/// Bonds a value for each pair of a stash and a controller, in one batch.
pub fn batch_bond(
    stash_controller_accounts: &Vec<(AccountId, AccountId)>,
    bond_value: u128,
    reward_destination: RewardDestination,
) -> (xt: Transaction)
    ensures
        xt.extrinsic matches Extrinsic::BatchSudoAs(calls) && calls@
            == stash_controller_accounts@.map_values(
            |pair: (AccountId, AccountId)|
                (
                    pair.0,
                    Call::Bond { controller: pair.1, value: bond_value, payee: reward_destination },
                ),
        ),
        xt.label@ == "batch of bond calls"@,
        xt.status == XtStatus::InBlock,
{
    let mut calls: Vec<(AccountId, Call)> = Vec::new();
    let mut i: usize = 0;
    while i < stash_controller_accounts.len()
        invariant
            i <= stash_controller_accounts@.len(),
            calls@.len() == i,
            forall|j: int|
                0 <= j < i ==> #[trigger] calls@[j] == (
                    stash_controller_accounts@[j].0,
                    Call::Bond {
                        controller: stash_controller_accounts@[j].1,
                        value: bond_value,
                        payee: reward_destination,
                    },
                ),
        decreases stash_controller_accounts@.len() - i,
    {
        let (stash, controller) = stash_controller_accounts[i];
        calls.push(
            (stash, Call::Bond { controller, value: bond_value, payee: reward_destination }),
        );
        i = i + 1;
    }
    proof {
        assert(calls@ =~= stash_controller_accounts@.map_values(
            |pair: (AccountId, AccountId)|
                (
                    pair.0,
                    Call::Bond { controller: pair.1, value: bond_value, payee: reward_destination },
                ),
        ));
    }
    Transaction {
        extrinsic: Extrinsic::BatchSudoAs(calls),
        label: "batch of bond calls",
        status: XtStatus::InBlock,
    }
}

/// Nominates a validator in the name of the signer.
pub fn nominate(nominee: AccountId) -> (xt: Transaction)
    ensures
        xt.extrinsic == Extrinsic::Signed(Call::Nominate { nominee }),
        xt.label@ == "nominate"@,
        xt.status == XtStatus::InBlock,
{
    Transaction {
        extrinsic: Extrinsic::Signed(Call::Nominate { nominee }),
        label: "nominate",
        status: XtStatus::InBlock,
    }
}

/// Nominates for each pair of a nominator and a nominee, in one batch.
pub fn batch_nominate(nominator_nominee_pairs: &Vec<(AccountId, AccountId)>) -> (xt: Transaction)
    ensures
        xt.extrinsic matches Extrinsic::BatchSudoAs(calls) && calls@
            == nominator_nominee_pairs@.map_values(
            |pair: (AccountId, AccountId)| (pair.0, Call::Nominate { nominee: pair.1 }),
        ),
        xt.label@ == "batch of nominate calls"@,
        xt.status == XtStatus::InBlock,
{
    let mut calls: Vec<(AccountId, Call)> = Vec::new();
    let mut i: usize = 0;
    while i < nominator_nominee_pairs.len()
        invariant
            i <= nominator_nominee_pairs@.len(),
            calls@.len() == i,
            forall|j: int|
                0 <= j < i ==> #[trigger] calls@[j] == (
                    nominator_nominee_pairs@[j].0,
                    Call::Nominate { nominee: nominator_nominee_pairs@[j].1 },
                ),
        decreases nominator_nominee_pairs@.len() - i,
    {
        let (nominator, nominee) = nominator_nominee_pairs[i];
        calls.push((nominator, Call::Nominate { nominee }));
        i = i + 1;
    }
    proof {
        assert(calls@ =~= nominator_nominee_pairs@.map_values(
            |pair: (AccountId, AccountId)| (pair.0, Call::Nominate { nominee: pair.1 }),
        ));
    }
    Transaction {
        extrinsic: Extrinsic::BatchSudoAs(calls),
        label: "batch of nominate calls",
        status: XtStatus::InBlock,
    }
}

/// Adds the signer's stake.
pub fn bond_extra(value: u128, status: XtStatus) -> (xt: Transaction)
    ensures
        xt.extrinsic == Extrinsic::Signed(Call::BondExtra { value }),
        xt.label@ == "bond_extra"@,
        xt.status == status,
{
    Transaction {
        extrinsic: Extrinsic::Signed(Call::BondExtra { value }),
        label: "bond_extra",
        status,
    }
}

/// Between the two eras that can be waited for lies a full era: whoever asks to
/// validate now validates in all of its sessions.
pub proof fn a_full_era_lies_between(current_era: nat, sessions_per_era: nat)
    ensures
        (current_era + 2) * sessions_per_era - (current_era + 1) * sessions_per_era
            == sessions_per_era,
{
    assert((current_era + 2) * sessions_per_era == (current_era + 1) * sessions_per_era
        + sessions_per_era) by (nonlinear_arith);
}

/// A payout counts for an account exactly where it raised what its first lock
/// holds.
pub proof fn payouts_raise_the_first_lock(before: Seq<Vec<u128>>, after: Seq<Vec<u128>>, i: int)
    ensures
        paid(before, after, i) <==> before[i]@[0] < after[i]@[0],
{
}

} // verus!

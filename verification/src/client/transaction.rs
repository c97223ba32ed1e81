//! Transactions: calls to the chain, and how they are sent.

use vstd::prelude::*;

use crate::rpc::client::XtStatus;

verus! {

/// How far a transaction is followed.
#[derive(Clone, Copy, Debug, PartialEq, Eq, Structural)]
pub enum TxStatus {
    InBlock,
    Finalized,
    Submitted,
}

/// An account of the chain.
#[derive(Clone, Copy, Debug, PartialEq, Eq)]
pub struct AccountId {
    pub bytes: [u8; 32],
}

/// Where the rewards of a staker go.
#[derive(Clone, Copy, Debug, PartialEq, Eq)]
pub enum RewardDestination {
    /// They are staked.
    Staked,
    /// To the stash account, without being staked.
    Stash,
    /// To the controller account.
    Controller,
    /// To an account.
    Account(AccountId),
    /// Nowhere.
    Nowhere,
}

/// The session keys of a validator.
#[derive(Clone, Copy, Debug, PartialEq, Eq)]
pub struct SessionKeys {
    pub aura: [u8; 32],
    pub aleph: [u8; 32],
}

/// A part of a whole, in billionths.
#[derive(Clone, Copy, Debug, PartialEq, Eq, Structural)]
pub struct Perbill(pub u32);

/// The billionths in one percent.
pub const PARTS_PER_PERCENT: u32 = 10_000_000;

impl Perbill {
    /// The given percentage, at most the whole.
    pub fn from_percent(percent: u8) -> (part: Self)
        ensures
            part.0 == PARTS_PER_PERCENT * (if percent <= 100 {
                percent as int
            } else {
                100
            }),
            percent <= 100 ==> part.0 * 100 == percent * 1_000_000_000,
            percent > 100 ==> part.0 == 1_000_000_000,
    {
        if percent <= 100 {
            Perbill(PARTS_PER_PERCENT * (percent as u32))
        } else {
            Perbill(PARTS_PER_PERCENT * 100)
        }
    }
}

/// A call to the chain.
#[derive(Clone, Copy, Debug, PartialEq, Eq)]
pub enum Call {
    /// `Staking::bond`.
    Bond { controller: AccountId, value: u128, payee: RewardDestination },
    /// `Staking::bond_extra`.
    BondExtra { value: u128 },
    /// `Staking::nominate`, of a single validator.
    Nominate { nominee: AccountId },
    /// `Staking::validate`.
    Validate { commission: Perbill, blocked: bool },
    /// `Staking::set_staking_limits`.
    SetStakingLimits {
        minimal_nominator_stake: u128,
        minimal_validator_stake: u128,
        max_nominators_count: Option<u32>,
        max_validators_count: Option<u32>,
        threshold: u8,
    },
    /// `Staking::force_new_era`.
    ForceNewEra,
    /// `Staking::payout_stakers`.
    PayoutStakers { stash: AccountId, era: u32 },
    /// `Session::set_keys`.
    SetKeys { keys: SessionKeys },
    /// `Balances::transfer`.
    Transfer { to: AccountId, amount: u128 },
    /// `Aleph::schedule_aleph_bft_version_change`.
    ScheduleVersionChange { version: u32, session: u32 },
}

/// What is submitted to the chain.
#[derive(Debug)]
pub enum Extrinsic {
    /// A call in the name of the signer.
    Signed(Call),
    /// A call in the name of the root.
    Sudo(Call),
    /// A batch of calls in the name of the signer.
    Batch(Vec<Call>),
    /// A batch of calls, each in the name of an account, on the word of the root.
    BatchSudoAs(Vec<(AccountId, Call)>),
}

/// A transaction: what is submitted, what it is called in the log and what
/// status it is waited for.
#[derive(Debug)]
pub struct Transaction {
    pub extrinsic: Extrinsic,
    pub label: &'static str,
    pub status: XtStatus,
}

} // verus!

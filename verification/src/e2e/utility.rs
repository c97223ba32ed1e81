//! Scenarios that change the keys of a validator or send many transactions.

use vstd::prelude::*;

use crate::client::transaction::{AccountId, Call, Extrinsic, SessionKeys, Transaction};
use crate::rpc::client::XtStatus;

verus! {

/// How many transfers a batch has.
pub const NUMBER_OF_TRANSACTIONS: usize = 100;

/// How much each transfer of a batch transfers.
pub const TRANSFERRED_AMOUNT: u128 = 1000;

/// How many sessions pass until a node is forced to use new keys.
pub const SESSIONS_UNTIL_NEW_KEYS: u32 = 2;

/// A batch of equal transfers to an account, waited for until it is finalized.
pub fn batch_transactions(to: AccountId) -> (xt: Transaction)
    ensures
        xt.extrinsic matches Extrinsic::Batch(calls) && calls@ == Seq::new(
            NUMBER_OF_TRANSACTIONS as nat,
            |i: int| Call::Transfer { to, amount: TRANSFERRED_AMOUNT },
        ),
        xt.extrinsic matches Extrinsic::Batch(calls) && calls@.len() == 100 && forall|i: int|
            0 <= i < 100 ==> #[trigger] calls@[i] == (Call::Transfer { to, amount: 1000 }),
        xt.label@ == "batch of transfers"@,
        xt.status == XtStatus::Finalized,
{
    let mut calls: Vec<Call> = Vec::new();
    let mut i: usize = 0;
    while i < NUMBER_OF_TRANSACTIONS
        invariant
            i <= NUMBER_OF_TRANSACTIONS,
            calls@.len() == i,
            forall|j: int|
                0 <= j < i ==> #[trigger] calls@[j] == (Call::Transfer {
                    to,
                    amount: TRANSFERRED_AMOUNT,
                }),
        decreases NUMBER_OF_TRANSACTIONS - i,
    {
        calls.push(Call::Transfer { to, amount: TRANSFERRED_AMOUNT });
        i = i + 1;
    }
    proof {
        assert(calls@ =~= Seq::new(
            NUMBER_OF_TRANSACTIONS as nat,
            |i: int| Call::Transfer { to, amount: TRANSFERRED_AMOUNT },
        ));
    }
    Transaction {
        extrinsic: Extrinsic::Batch(calls),
        label: "batch of transfers",
        status: XtStatus::Finalized,
    }
}

/// Sets the session keys of the signer's node.
pub fn set_keys(keys: SessionKeys) -> (xt: Transaction)
    ensures
        xt.extrinsic == Extrinsic::Signed(Call::SetKeys { keys }),
        xt.label@ == "set_keys"@,
        xt.status == XtStatus::InBlock,
{
    Transaction {
        extrinsic: Extrinsic::Signed(Call::SetKeys { keys }),
        label: "set_keys",
        status: XtStatus::InBlock,
    }
}

/// Changes the keys of a validator to some `zero` values, making it impossible
/// to create new legal blocks.
pub fn disable_validator() -> (xt: Transaction)
    ensures
        xt.extrinsic matches Extrinsic::Signed(Call::SetKeys { keys }) && keys.aura@ == Seq::new(
            32,
            |i: int| 0u8,
        ) && keys.aleph@ == Seq::new(32, |i: int| 0u8),
        xt.label@ == "set_keys"@,
        xt.status == XtStatus::InBlock,
{
    let keys = SessionKeys { aura: [0; 32], aleph: [0; 32] };
    proof {
        assert(keys.aura@ =~= Seq::new(32, |i: int| 0u8));
        assert(keys.aleph@ =~= Seq::new(32, |i: int| 0u8));
    }
    set_keys(keys)
}

/// Sets the keys of a validator to those that its node rotated to, making it
/// able to rejoin the consensus.
pub fn enable_validator(rotated_keys: SessionKeys) -> (xt: Transaction)
    ensures
        xt.extrinsic == Extrinsic::Signed(Call::SetKeys { keys: rotated_keys }),
        xt.label@ == "set_keys"@,
        xt.status == XtStatus::InBlock,
{
    set_keys(rotated_keys)
}

/// The session in which a node is forced to use keys that are set now.
pub fn session_of_new_keys(current_session: u32) -> (session: u32)
    requires
        current_session + SESSIONS_UNTIL_NEW_KEYS <= u32::MAX,
    ensures
        session == current_session + SESSIONS_UNTIL_NEW_KEYS,
        session == current_session + 2,
{
    current_session + SESSIONS_UNTIL_NEW_KEYS
}

} // verus!

use aleph_node::client::elections::era_validators_block;
use aleph_node::client::keys::{
    account_from_keypair, aleph_keypair_from_string, keypair_from_string,
    raw_keypair_from_string,
};
use aleph_node::client::staking::{
    assert_locked_balances, batch_bond, batch_nominate, bond, bond_extra, first_session_of_era,
    force_new_era, multi_bond, nominate, payout_stakers, payout_stakers_of_previous_era,
    set_staking_limits, validate, wait_for_full_era_completion, wait_for_next_era, AwaitedEra,
    MissingPayout,
};
use aleph_node::client::transaction::{
    AccountId, Call, Extrinsic, Perbill, RewardDestination, Transaction,
};
use aleph_node::client::version_upgrade::schedule_upgrade;
use aleph_node::rpc::client::XtStatus;

fn account(i: u8) -> AccountId {
    AccountId { bytes: [i; 32] }
}

fn signed(xt: &Transaction) -> Call {
    match xt.extrinsic {
        Extrinsic::Signed(call) => call,
        _ => panic!("not in the name of the signer"),
    }
}

fn sudo(xt: &Transaction) -> Call {
    match xt.extrinsic {
        Extrinsic::Sudo(call) => call,
        _ => panic!("not in the name of the root"),
    }
}

fn batch(xt: &Transaction) -> &Vec<(AccountId, Call)> {
    match &xt.extrinsic {
        Extrinsic::BatchSudoAs(calls) => calls,
        _ => panic!("not a batch"),
    }
}

#[test]
fn bonding_stakes_the_rewards() {
    let xt = bond(7, account(1), XtStatus::Finalized);
    assert_eq!(
        signed(&xt),
        Call::Bond {
            controller: account(1),
            value: 7,
            payee: RewardDestination::Staked
        }
    );
    assert_eq!(xt.label, "bond");
    assert_eq!(xt.status, XtStatus::Finalized);
    let xts = multi_bond(&vec![account(1), account(2)], 9);
    assert_eq!(xts.len(), 2);
    assert_eq!(xts[1].0, account(2));
    assert_eq!(
        signed(&xts[1].1),
        Call::Bond {
            controller: account(2),
            value: 9,
            payee: RewardDestination::Staked
        }
    );
    assert_eq!(xts[1].1.status, XtStatus::InBlock);
    assert_eq!(
        signed(&bond_extra(3, XtStatus::Finalized)),
        Call::BondExtra { value: 3 }
    );
}

#[test]
fn commissions_are_percentages() {
    let xt = validate(17, XtStatus::InBlock);
    assert_eq!(
        signed(&xt),
        Call::Validate {
            commission: Perbill(170_000_000),
            blocked: false
        }
    );
    assert_eq!(xt.label, "validate");
    assert_eq!(
        signed(&validate(200, XtStatus::InBlock)),
        Call::Validate {
            commission: Perbill(1_000_000_000),
            blocked: false
        }
    );
}

#[test]
fn the_root_sets_limits_and_forces_eras() {
    let xt = set_staking_limits(1, 2, Some(3), None, XtStatus::InBlock);
    assert_eq!(
        sudo(&xt),
        Call::SetStakingLimits {
            minimal_nominator_stake: 1,
            minimal_validator_stake: 2,
            max_nominators_count: Some(3),
            max_validators_count: None,
            threshold: 0
        }
    );
    assert_eq!(xt.label, "set_staking_limits");
    let xt = force_new_era(XtStatus::Finalized);
    assert_eq!(sudo(&xt), Call::ForceNewEra);
    assert_eq!(xt.label, "force_new_era");
    let xt = schedule_upgrade(4, 5);
    assert_eq!(
        sudo(&xt),
        Call::ScheduleVersionChange {
            version: 4,
            session: 5
        }
    );
    assert_eq!(xt.label, "schedule_aleph_bft_version_change");
    assert_eq!(xt.status, XtStatus::Finalized);
}

#[test]
fn eras_begin_with_their_first_session() {
    assert_eq!(first_session_of_era(3, 5), 15);
    assert_eq!(
        wait_for_full_era_completion(3, 5),
        AwaitedEra {
            era: 5,
            session: 25
        }
    );
    assert_eq!(
        wait_for_next_era(3, 5),
        AwaitedEra {
            era: 4,
            session: 20
        }
    );
    assert_eq!(era_validators_block(30, 4), 120);
}

#[test]
fn payouts_are_for_an_era() {
    let xt = payout_stakers(account(1), 6);
    assert_eq!(
        signed(&xt),
        Call::PayoutStakers {
            stash: account(1),
            era: 6
        }
    );
    assert_eq!(xt.label, "payout stakers");
    assert_eq!(
        signed(&payout_stakers_of_previous_era(account(1), 6)),
        Call::PayoutStakers {
            stash: account(1),
            era: 5
        }
    );
}

#[test]
fn payouts_raise_locked_balances() {
    let accounts = vec![account(1), account(2), account(3)];
    let before = vec![vec![10, 99], vec![20], vec![30]];
    let raised = vec![vec![11, 0], vec![21], vec![31]];
    assert_eq!(assert_locked_balances(&accounts, &before, &raised), Ok(()));
    let not_raised = vec![vec![11], vec![20], vec![30]];
    assert_eq!(
        assert_locked_balances(&accounts, &before, &not_raised),
        Err(MissingPayout {
            account: account(2),
            before: 20,
            after: 20
        })
    );
    // what has no counterpart is not looked at
    assert_eq!(
        assert_locked_balances(&vec![account(1)], &before, &not_raised),
        Ok(())
    );
}

#[test]
fn batches_call_in_the_name_of_each_account() {
    let pairs = vec![(account(1), account(2)), (account(3), account(4))];
    let xt = batch_bond(&pairs, 8, RewardDestination::Controller);
    assert_eq!(
        batch(&xt),
        &vec![
            (
                account(1),
                Call::Bond {
                    controller: account(2),
                    value: 8,
                    payee: RewardDestination::Controller
                }
            ),
            (
                account(3),
                Call::Bond {
                    controller: account(4),
                    value: 8,
                    payee: RewardDestination::Controller
                }
            ),
        ]
    );
    assert_eq!(xt.label, "batch of bond calls");
    let xt = batch_nominate(&pairs);
    assert_eq!(
        batch(&xt),
        &vec![
            (account(1), Call::Nominate { nominee: account(2) }),
            (account(3), Call::Nominate { nominee: account(4) }),
        ]
    );
    assert_eq!(xt.label, "batch of nominate calls");
    assert_eq!(xt.status, XtStatus::InBlock);
    assert_eq!(
        signed(&nominate(account(5))),
        Call::Nominate { nominee: account(5) }
    );
}

#[test]
fn accounts_come_of_seeds() {
    // the well-known development account
    let alice = [
        0xd4, 0x35, 0x93, 0xc7, 0x15, 0xfd, 0xd3, 0x1c, 0x61, 0x14, 0x1a, 0xbd, 0x04, 0xa9, 0x9f,
        0xd6, 0x82, 0x2c, 0x85, 0x58, 0x85, 0x4c, 0xcd, 0xe3, 0x9a, 0x56, 0x84, 0xe7, 0xa5, 0x6d,
        0xa2, 0x7d,
    ];
    let pair = raw_keypair_from_string("//Alice").expect("a pair comes of it");
    assert_eq!(account_from_keypair(&pair), AccountId { bytes: alice });
    let pair = keypair_from_string("//Alice").expect("a pair comes of it");
    assert_eq!(pair.signer.public, alice);
    assert_eq!(pair.signer.seed, "//Alice");
    assert!(keypair_from_string("no such phrase").is_none());
    let aleph = aleph_keypair_from_string("//Alice").expect("a pair comes of it");
    assert_eq!(
        aleph.public,
        [
            0x88, 0xdc, 0x34, 0x17, 0xd5, 0x05, 0x8e, 0xc4, 0xb4, 0x50, 0x3e, 0x0c, 0x12, 0xea,
            0x1a, 0x0a, 0x89, 0xbe, 0x20, 0x0f, 0xe9, 0x89, 0x22, 0x42, 0x3d, 0x43, 0x34, 0x01,
            0x4f, 0xa6, 0xb0, 0xee
        ]
    );
    assert_eq!(account_from_keypair(&aleph).bytes, aleph.public);
    assert!(aleph_keypair_from_string("no such phrase").is_none());
}

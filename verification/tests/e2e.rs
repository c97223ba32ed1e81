use aleph_node::client::elections::CommitteeSeats;
use aleph_node::client::transaction::{AccountId, Call, Extrinsic, SessionKeys};
use aleph_node::e2e::electing_validators::{
    assert_enough_validators, assert_enough_validators_left_after_chilling,
    assert_validators_are_elected_stakers, authorities_are_staking,
    min_num_sessions_to_see_all_non_reserved_validators, ElectionAction, ElectionEvent,
    ElectionFailure, ElectionScenario,
};
use aleph_node::e2e::rewards::{
    change_stake_and_force_new_era, check_points_after_force_new_era, disable_node,
    force_new_era, points_basic, points_stake_change, validators_bond_extra_stakes, ExpectedEra,
    EraValidators, NodeAccounts, PointsCheck, RewardsPlan, RewardsStart, RewardsStep, Wait,
};
use aleph_node::e2e::rewards_run::{
    CheckAction, CheckRun, RewardsAction, RewardsOutcome, RewardsRun,
};
use aleph_node::e2e::utility::{
    batch_transactions, disable_validator, enable_validator, session_of_new_keys,
};
use aleph_node::e2e::version_upgrade::{
    finalization_verdict, get_session_first_block,
    schedule_doomed_version_change_and_verify_finalization_stopped,
    schedule_version_change, FinalizationVerdict, UpgradeAction, UpgradeFailure, UpgradeOutcome,
    UpgradeRun, UpgradeStep, VersionUpgradeParams,
};
use aleph_node::rpc::client::XtStatus;

fn account(i: u8) -> AccountId {
    AccountId { bytes: [i; 32] }
}

fn accounts(range: std::ops::Range<u8>) -> Vec<AccountId> {
    range.map(account).collect()
}

#[test]
fn sessions_suffice_to_see_all_validators() {
    assert_eq!(min_num_sessions_to_see_all_non_reserved_validators(7, 3), 3);
    assert_eq!(min_num_sessions_to_see_all_non_reserved_validators(6, 3), 2);
    assert_eq!(min_num_sessions_to_see_all_non_reserved_validators(0, 3), 0);
    assert_eq!(min_num_sessions_to_see_all_non_reserved_validators(7, 0), 0);
    let max = u32::MAX;
    assert_eq!(min_num_sessions_to_see_all_non_reserved_validators(max, max), 1);
    assert_eq!(min_num_sessions_to_see_all_non_reserved_validators(max, max - 1), 2);
    assert_eq!(min_num_sessions_to_see_all_non_reserved_validators(max, 1), max);
}

#[test]
fn staking_enforces_a_minimum() {
    assert_eq!(assert_enough_validators(4, 4), Ok(()));
    assert_eq!(
        assert_enough_validators(3, 4),
        Err(ElectionFailure::TooFewValidators {
            present: 3,
            minimum: 4
        })
    );
    assert_eq!(
        assert_enough_validators_left_after_chilling(3, 3, 1, 1, 4),
        Ok(())
    );
    assert_eq!(
        assert_enough_validators_left_after_chilling(0, 3, 1, 1, 4),
        Err(ElectionFailure::TooFewReserved)
    );
    assert_eq!(
        assert_enough_validators_left_after_chilling(3, 0, 1, 1, 4),
        Err(ElectionFailure::TooFewNonReserved)
    );
    assert_eq!(
        assert_enough_validators_left_after_chilling(3, 2, 1, 1, 4),
        Err(ElectionFailure::TooFewLeft {
            left: 3,
            minimum: 4
        })
    );
}

#[test]
fn stakers_are_compared_as_sets() {
    let a = vec![vec![1], vec![2], vec![1]];
    let b = vec![vec![2], vec![1]];
    assert_eq!(assert_validators_are_elected_stakers(&a, &b), Ok(()));
    assert_eq!(
        assert_validators_are_elected_stakers(&a, &vec![vec![1]]),
        Err(ElectionFailure::UnexpectedStakers)
    );
    assert_eq!(
        assert_validators_are_elected_stakers(&vec![vec![1]], &b),
        Err(ElectionFailure::UnexpectedStakers)
    );
}

fn set_up() -> ElectionScenario {
    let mut scenario = authorities_are_staking(None, None);
    assert!(matches!(scenario.action(), ElectionAction::CountValidators));
    assert_eq!(scenario.on_event(ElectionEvent::ValidatorCount(5)), Ok(()));
    assert!(matches!(
        scenario.action(),
        ElectionAction::SetUpValidators { count: 6 }
    ));
    assert_eq!(
        scenario.on_event(ElectionEvent::Accounts {
            stashes: accounts(0..6),
            controllers: accounts(10..16)
        }),
        Ok(())
    );
    scenario
}

fn expected_stakers(scenario: &ElectionScenario) -> Vec<AccountId> {
    match scenario.action() {
        ElectionAction::ReadStakers { expected, era: 8 } => expected,
        other => panic!("unexpected action: {:?}", other),
    }
}

fn stakers(keys: Vec<Vec<u8>>) -> ElectionEvent {
    ElectionEvent::Stakers {
        expected: keys.clone(),
        actual: keys,
    }
}

#[test]
fn elections_of_staking_authorities_run_to_their_end() {
    let mut scenario = set_up();
    match scenario.action() {
        ElectionAction::ChangeValidators {
            reserved,
            non_reserved,
            seats,
        } => {
            assert_eq!(reserved, accounts(0..3));
            assert_eq!(non_reserved, accounts(3..6));
            assert_eq!(
                seats,
                CommitteeSeats {
                    reserved_seats: 3,
                    non_reserved_seats: 3
                }
            );
        }
        other => panic!("unexpected action: {:?}", other),
    }
    assert_eq!(scenario.on_event(ElectionEvent::Acknowledged), Ok(()));
    assert!(matches!(scenario.action(), ElectionAction::AwaitFullEra));
    assert_eq!(scenario.on_event(ElectionEvent::EraReached(8)), Ok(()));
    assert_eq!(expected_stakers(&scenario), accounts(0..6));
    assert_eq!(scenario.on_event(stakers(vec![vec![1], vec![2]])), Ok(()));
    assert!(matches!(scenario.action(), ElectionAction::ReadAuthorities));
    assert_eq!(
        scenario.on_event(ElectionEvent::Authorities(accounts(0..6))),
        Ok(())
    );
    match scenario.action() {
        ElectionAction::Chill {
            reserved_controller,
            non_reserved_controller,
        } => {
            assert_eq!(reserved_controller, account(10));
            assert_eq!(non_reserved_controller, account(13));
        }
        other => panic!("unexpected action: {:?}", other),
    }
    assert_eq!(scenario.on_event(ElectionEvent::Acknowledged), Ok(()));
    assert!(matches!(scenario.action(), ElectionAction::AwaitFullEra));
    assert_eq!(scenario.on_event(ElectionEvent::EraReached(8)), Ok(()));
    let left = vec![account(1), account(2), account(4), account(5)];
    assert_eq!(expected_stakers(&scenario), left);
    assert_eq!(scenario.on_event(stakers(vec![])), Ok(()));
    assert_eq!(scenario.on_event(ElectionEvent::Authorities(left)), Ok(()));
    assert!(matches!(scenario.action(), ElectionAction::Finish));
}

#[test]
fn elections_fail_where_the_chain_is_not_as_expected() {
    let mut scenario = authorities_are_staking(Some(2), Some(2));
    assert_eq!(
        scenario.on_event(ElectionEvent::ValidatorCount(3)),
        Err(ElectionFailure::TooFewValidators {
            present: 3,
            minimum: 4
        })
    );
    let mut scenario = authorities_are_staking(Some(2), Some(2));
    assert_eq!(scenario.on_event(ElectionEvent::ValidatorCount(4)), Ok(()));
    assert_eq!(
        scenario.on_event(ElectionEvent::Accounts {
            stashes: accounts(0..5),
            controllers: accounts(0..5)
        }),
        Err(ElectionFailure::NonReservedSeats { desired: 2, got: 3 })
    );
    assert_eq!(
        scenario.on_event(ElectionEvent::Accounts {
            stashes: accounts(0..4),
            controllers: accounts(0..4)
        }),
        Err(ElectionFailure::TooFewLeft {
            left: 2,
            minimum: 4
        })
    );
    let mut scenario = set_up();
    assert_eq!(scenario.on_event(ElectionEvent::Acknowledged), Ok(()));
    assert_eq!(scenario.on_event(ElectionEvent::EraReached(8)), Ok(()));
    assert_eq!(
        scenario.on_event(ElectionEvent::Stakers {
            expected: vec![vec![1]],
            actual: vec![]
        }),
        Err(ElectionFailure::UnexpectedStakers)
    );
    assert_eq!(scenario.on_event(stakers(vec![])), Ok(()));
    assert_eq!(
        scenario.on_event(ElectionEvent::Authorities(accounts(0..5))),
        Err(ElectionFailure::UnexpectedAuthorities)
    );
}

const START: RewardsStart = RewardsStart {
    era: 2,
    session: 11,
    sessions_per_era: 3,
};

fn era_validators() -> EraValidators {
    EraValidators {
        reserved: accounts(1..3),
        non_reserved: accounts(3..6),
    }
}

fn check(session: u32, era: ExpectedEra) -> PointsCheck {
    PointsCheck {
        session,
        era,
        era_validators: era_validators(),
        members_per_session: 4,
        max_difference_percent: 7,
    }
}

fn checks(plan: &RewardsPlan, awaited: u32) -> Vec<PointsCheck> {
    plan.checks(&START, awaited, &era_validators(), 4)
}

#[test]
fn points_are_checked_for_every_session_of_the_era() {
    let plan = points_basic();
    assert_eq!(plan.steps(), vec![RewardsStep::Await, RewardsStep::CheckPoints]);
    let awaited = plan.awaited_session(&START, 2);
    assert_eq!(awaited, 9);
    assert_eq!(
        checks(&plan, awaited),
        (6..9)
            .map(|session| check(session, ExpectedEra::OfSession))
            .collect::<Vec<_>>()
    );
    assert!(checks(&plan, 5).is_empty());
}

#[test]
fn stakes_are_changed_in_multiples_of_the_bond() {
    let plan = points_stake_change(10);
    assert_eq!(plan.extra_stakes, vec![80, 60, 40, 20, 0]);
    assert_eq!(
        plan.steps(),
        vec![
            RewardsStep::BondExtraStakes,
            RewardsStep::Await,
            RewardsStep::CheckPoints
        ]
    );
    assert_eq!(checks(&plan, 7), vec![check(6, ExpectedEra::Era(2))]);
    let plan = change_stake_and_force_new_era(10);
    assert_eq!(plan.extra_stakes, vec![70, 20, 110, 0, 40]);
    assert_eq!(
        plan.steps(),
        vec![
            RewardsStep::BondExtraStakes,
            RewardsStep::ForceNewEra,
            RewardsStep::Await,
            RewardsStep::CheckPoints
        ]
    );
    assert_eq!(plan.wait, Wait::Sessions(2));
}

#[test]
fn disabled_nodes_are_enabled_again() {
    let plan = disable_node();
    assert_eq!(
        plan.steps(),
        vec![
            RewardsStep::SetInvalidKeys,
            RewardsStep::ResetKeys,
            RewardsStep::Await,
            RewardsStep::CheckPoints
        ]
    );
    assert_eq!(plan.awaited_session(&START, 2), 12);
    assert_eq!(checks(&plan, 12).len(), 6);
}

fn forced_checks() -> Vec<PointsCheck> {
    vec![
        check(11, ExpectedEra::Era(2)),
        check(12, ExpectedEra::Era(2)),
        check(13, ExpectedEra::Era(3)),
    ]
}

#[test]
fn forced_eras_come_into_effect_after_two_sessions() {
    let plan = force_new_era();
    assert_eq!(plan.awaited_session(&START, 7), 13);
    assert_eq!(checks(&plan, 13), forced_checks());
    let validators = era_validators();
    assert_eq!(
        check_points_after_force_new_era(
            11,
            2,
            &validators.reserved,
            &validators.non_reserved,
            4,
            7
        ),
        forced_checks()
    );
}

type Outcome = RewardsOutcome<&'static str>;

fn members(session: u32) -> Outcome {
    RewardsOutcome::MembersRead {
        active: vec![account(session as u8)],
        bench: vec![account(100)],
    }
}

/// The session and the era of a check that is due, with the members that were
/// read for the session.
fn due(action: CheckAction) -> (u32, u32) {
    match action {
        CheckAction::CheckPoints {
            session,
            era,
            active,
            bench,
            members_per_session: 4,
            max_difference_percent: 7,
        } => {
            assert_eq!(active, vec![account(session as u8)]);
            assert_eq!(bench, vec![account(100)]);
            (session, era)
        }
        other => panic!("unexpected action: {:?}", other),
    }
}

#[test]
fn checks_run_one_after_the_other() {
    let mut run = CheckRun::new(forced_checks());
    for (session, era) in [(11, 2), (12, 2), (13, 3)] {
        match run.action() {
            CheckAction::ReadMembers {
                session: s,
                era_validators: validators,
                members_per_session: 4,
            } => {
                assert_eq!(s, session);
                assert_eq!(validators, era_validators());
            }
            other => panic!("unexpected action: {:?}", other),
        }
        assert!(!run.is_over());
        run.on_outcome(members(session));
        assert_eq!(due(run.action()), (session, era));
        run.on_outcome(RewardsOutcome::Done);
    }
    assert!(matches!(run.action(), CheckAction::Finish));
    assert_eq!(run.result(), Ok(()));

    let mut run = CheckRun::new(forced_checks());
    run.on_outcome(members(11));
    run.on_outcome(RewardsOutcome::Failed("points differ"));
    assert!(run.is_over());
    assert!(matches!(run.action(), CheckAction::Abort));
    assert_eq!(run.result(), Err("points differ"));
}

fn run(plan: RewardsPlan) -> RewardsRun<&'static str> {
    RewardsRun::new(plan, START, era_validators(), 4)
}

#[test]
fn scenarios_on_points_run_to_their_end() {
    let mut run = run(disable_node());
    assert!(matches!(run.action(), RewardsAction::SetInvalidKeys));
    run.on_outcome(RewardsOutcome::Done);
    assert!(matches!(run.action(), RewardsAction::ResetKeys));
    run.on_outcome(RewardsOutcome::Done);
    assert!(matches!(run.action(), RewardsAction::ReadCurrentEra));
    run.on_outcome(RewardsOutcome::EraRead(1));
    assert!(matches!(run.action(), RewardsAction::AwaitSession { session: 9 }));
    run.on_outcome(RewardsOutcome::Done);
    for session in 6..9 {
        run.on_outcome(members(session));
        match run.action() {
            RewardsAction::Check(CheckAction::ReadEra { session: s }) => assert_eq!(s, session),
            other => panic!("unexpected action: {:?}", other),
        }
        run.on_outcome(RewardsOutcome::EraRead(session / 3));
        match run.action() {
            RewardsAction::Check(action) => assert_eq!(due(action), (session, session / 3)),
            other => panic!("unexpected action: {:?}", other),
        }
        assert!(!run.is_over());
        run.on_outcome(RewardsOutcome::Done);
    }
    assert!(run.is_over());
    assert!(matches!(run.action(), RewardsAction::Check(CheckAction::Finish)));
    assert_eq!(run.result(), Ok(()));
}

#[test]
fn scenarios_bond_and_force_before_they_wait() {
    let mut run = run(change_stake_and_force_new_era(10));
    match run.action() {
        RewardsAction::BondExtraStakes { stakes } => {
            assert_eq!(stakes, vec![70, 20, 110, 0, 40])
        }
        other => panic!("unexpected action: {:?}", other),
    }
    run.on_outcome(RewardsOutcome::Done);
    assert!(matches!(run.action(), RewardsAction::ForceNewEra));
    run.on_outcome(RewardsOutcome::Done);
    assert!(matches!(run.action(), RewardsAction::AwaitSession { session: 13 }));
    run.on_outcome(RewardsOutcome::Done);
    for (session, era) in [(11, 2), (12, 2), (13, 3)] {
        run.on_outcome(members(session));
        match run.action() {
            RewardsAction::Check(action) => assert_eq!(due(action), (session, era)),
            other => panic!("unexpected action: {:?}", other),
        }
        run.on_outcome(RewardsOutcome::Done);
    }
    assert_eq!(run.result(), Ok(()));
}

#[test]
fn the_first_failure_ends_a_scenario_on_points() {
    let mut bonding = run(points_stake_change(10));
    bonding.on_outcome(RewardsOutcome::Failed("no funds"));
    assert!(matches!(bonding.action(), RewardsAction::Abort));
    assert!(bonding.is_over());
    assert_eq!(bonding.result(), Err("no funds"));

    let mut checking = run(points_basic());
    checking.on_outcome(RewardsOutcome::EraRead(2));
    checking.on_outcome(RewardsOutcome::Done);
    checking.on_outcome(members(6));
    checking.on_outcome(RewardsOutcome::EraRead(2));
    checking.on_outcome(RewardsOutcome::Failed("points differ"));
    assert!(matches!(
        checking.action(),
        RewardsAction::Check(CheckAction::Abort)
    ));
    assert_eq!(checking.result(), Err("points differ"));

    // nothing to check: the wait is all there is
    let mut short = run(points_basic());
    short.on_outcome(RewardsOutcome::EraRead(1));
    short.on_outcome(RewardsOutcome::Done);
    assert!(short.is_over());
    assert_eq!(short.result(), Ok(()));
}

#[test]
fn extra_stakes_come_with_their_fees() {
    let nodes = vec![
        NodeAccounts {
            validator: account(1),
            controller: account(2),
        },
        NodeAccounts {
            validator: account(3),
            controller: account(4),
        },
    ];
    let steps = validators_bond_extra_stakes(&nodes, &vec![100, 200, 300], 7);
    assert_eq!(steps.controllers, vec![account(2), account(4)]);
    assert_eq!(steps.fee, 7);
    assert_eq!(steps.stakes.len(), 2);
    let step = &steps.stakes[1];
    assert_eq!(step.validator, account(3));
    match step.transfer.extrinsic {
        Extrinsic::Signed(call) => assert_eq!(
            call,
            Call::Transfer {
                to: account(3),
                amount: 207
            }
        ),
        _ => panic!("not in the name of the signer"),
    }
    match step.bond.extrinsic {
        Extrinsic::Signed(call) => assert_eq!(call, Call::BondExtra { value: 200 }),
        _ => panic!("not in the name of the signer"),
    }
    assert_eq!(step.bond.status, XtStatus::Finalized);
}

#[test]
fn batches_have_a_hundred_transfers() {
    let xt = batch_transactions(account(9));
    match &xt.extrinsic {
        Extrinsic::Batch(calls) => {
            assert_eq!(calls.len(), 100);
            assert!(calls.iter().all(|call| *call
                == Call::Transfer {
                    to: account(9),
                    amount: 1000
                }));
        }
        _ => panic!("not a batch"),
    }
    assert_eq!(xt.status, XtStatus::Finalized);
}

#[test]
fn keys_are_zeroed_and_rotated() {
    let zero = SessionKeys {
        aura: [0; 32],
        aleph: [0; 32],
    };
    match disable_validator().extrinsic {
        Extrinsic::Signed(call) => assert_eq!(call, Call::SetKeys { keys: zero }),
        _ => panic!("not in the name of the signer"),
    }
    let rotated = SessionKeys {
        aura: [1; 32],
        aleph: [2; 32],
    };
    match enable_validator(rotated).extrinsic {
        Extrinsic::Signed(call) => assert_eq!(call, Call::SetKeys { keys: rotated }),
        _ => panic!("not in the name of the signer"),
    }
    assert_eq!(session_of_new_keys(5), 7);
}

#[test]
fn upgrades_are_scheduled_and_awaited() {
    let defaults = VersionUpgradeParams {
        upgrade_to_version: None,
        upgrade_session: None,
        upgrade_finalization_wait_sessions: None,
    };
    assert_eq!(
        schedule_version_change(&defaults),
        vec![
            UpgradeStep::Schedule {
                version: 1,
                session: 3
            },
            UpgradeStep::AwaitSession { session: 4 },
            UpgradeStep::AwaitRememberedFinalized,
        ]
    );
    let params = VersionUpgradeParams {
        upgrade_to_version: Some(7),
        upgrade_session: Some(10),
        upgrade_finalization_wait_sessions: Some(2),
    };
    assert_eq!(
        schedule_doomed_version_change_and_verify_finalization_stopped(&params),
        vec![
            UpgradeStep::AwaitFinalized { block: 1 },
            UpgradeStep::Schedule {
                version: 7,
                session: 10
            },
            UpgradeStep::AwaitSession { session: 12 },
            UpgradeStep::CheckFinalizationStopped {
                upgrade_session: 10
            },
        ]
    );
    let first_block = get_session_first_block(10, 3);
    assert_eq!(first_block, 30);
    assert_eq!(
        finalization_verdict(Some(first_block), first_block),
        FinalizationVerdict::Stopped
    );
    assert_eq!(
        finalization_verdict(Some(31), 30),
        FinalizationVerdict::WentOn
    );
    assert_eq!(
        finalization_verdict(None, 30),
        FinalizationVerdict::NothingFinalized
    );
}

fn doomed() -> UpgradeRun<&'static str> {
    let params = VersionUpgradeParams {
        upgrade_to_version: Some(7),
        upgrade_session: Some(10),
        upgrade_finalization_wait_sessions: Some(2),
    };
    UpgradeRun::new(schedule_doomed_version_change_and_verify_finalization_stopped(&params))
}

fn upgraded() -> UpgradeRun<&'static str> {
    let mut run = doomed();
    assert_eq!(run.action(), UpgradeAction::AwaitFinalized { block: 1 });
    run.on_outcome(UpgradeOutcome::Done);
    assert_eq!(
        run.action(),
        UpgradeAction::Schedule {
            version: 7,
            session: 10
        }
    );
    run.on_outcome(UpgradeOutcome::Done);
    assert_eq!(run.action(), UpgradeAction::AwaitSession { session: 12 });
    run.on_outcome(UpgradeOutcome::SessionReached { block: 36 });
    assert_eq!(run.action(), UpgradeAction::ReadFinalized);
    run
}

fn finalized(finalized_block: Option<u32>) -> UpgradeOutcome<&'static str> {
    UpgradeOutcome::FinalizedRead {
        finalized_block,
        session_period: 3,
    }
}

#[test]
fn doomed_upgrades_stop_finalization_at_their_session() {
    let mut run = upgraded();
    run.on_outcome(finalized(Some(30)));
    assert_eq!(run.action(), UpgradeAction::Finish);
    assert!(run.result().is_ok());
    // past the first block of the session, though not past the block that was awaited
    let mut run = upgraded();
    run.on_outcome(finalized(Some(31)));
    assert_eq!(run.action(), UpgradeAction::Abort);
    assert!(matches!(run.result(), Err(UpgradeFailure::WentOn)));
    let mut run = upgraded();
    run.on_outcome(finalized(None));
    assert!(matches!(
        run.result(),
        Err(UpgradeFailure::NothingFinalized)
    ));
}

#[test]
fn upgrades_await_the_block_they_saw() {
    let defaults = VersionUpgradeParams {
        upgrade_to_version: None,
        upgrade_session: None,
        upgrade_finalization_wait_sessions: None,
    };
    let mut run: UpgradeRun<&str> = UpgradeRun::new(schedule_version_change(&defaults));
    run.on_outcome(UpgradeOutcome::Done);
    run.on_outcome(UpgradeOutcome::SessionReached { block: 41 });
    assert_eq!(run.action(), UpgradeAction::AwaitFinalized { block: 41 });
    run.on_outcome(UpgradeOutcome::Done);
    assert_eq!(run.action(), UpgradeAction::Finish);
    assert!(run.result().is_ok());

    let mut run = UpgradeRun::new(schedule_version_change(&defaults));
    run.on_outcome(UpgradeOutcome::Failed("not scheduled"));
    assert_eq!(run.action(), UpgradeAction::Abort);
    assert!(matches!(
        run.result(),
        Err(UpgradeFailure::Step("not scheduled"))
    ));
}

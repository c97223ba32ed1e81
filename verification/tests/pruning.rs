use aleph_node::node::pruning::{
    default_blocks_pruning, default_database_for_pruning, default_state_pruning,
    default_state_pruning_when_pruning_enabled, handle_pruning_settings, pruning_changed,
    report_pruning_validation_result, BlocksPruning, Database, DatabasePruningMode,
    PruningMode, PruningParams, PruningWarning, StorageSettings,
};
use aleph_node::node::startup::{addressing, Addressing, Role};

#[test]
fn pruning_sanity_check() {
    let pruning_params = PruningParams {
        state_pruning: Some(default_state_pruning()),
        blocks_pruning: default_blocks_pruning(),
    };

    assert_eq!(
        pruning_params.blocks_pruning(),
        BlocksPruning::KeepFinalized
    );

    assert_eq!(
        pruning_params.state_pruning().unwrap(),
        PruningMode::ArchiveAll
    );
}

fn settings(
    pruning: bool,
    state_pruning: Option<DatabasePruningMode>,
    blocks_pruning: DatabasePruningMode,
    database: Option<Database>,
) -> StorageSettings {
    StorageSettings {
        pruning,
        pruning_params: PruningParams {
            state_pruning,
            blocks_pruning,
        },
        database,
    }
}

#[test]
fn without_pruning_everything_is_kept() {
    let mut given = settings(
        false,
        Some(DatabasePruningMode::Custom(256)),
        DatabasePruningMode::Archive,
        Some(Database::RocksDb),
    );
    let result = handle_pruning_settings(&mut given);
    assert_eq!(
        given,
        settings(
            false,
            Some(DatabasePruningMode::Archive),
            DatabasePruningMode::ArchiveCanonical,
            Some(Database::RocksDb)
        )
    );
    assert!(result.overwritten_pruning);
    assert_eq!(
        report_pruning_validation_result(false, &result),
        vec![PruningWarning::NotSupported]
    );
}

#[test]
fn without_pruning_the_defaults_call_for_no_warning() {
    let mut given = settings(false, None, DatabasePruningMode::ArchiveCanonical, None);
    let result = handle_pruning_settings(&mut given);
    assert!(!result.overwritten_pruning);
    assert_eq!(report_pruning_validation_result(false, &result), vec![]);
    assert_eq!(given.pruning_params.state_pruning, Some(DatabasePruningMode::Archive));
    assert_eq!(given.database, None);
}

#[test]
fn unsupported_settings_are_replaced_and_reported() {
    let mut given = settings(
        true,
        Some(DatabasePruningMode::Custom(2047)),
        DatabasePruningMode::Custom(5),
        Some(Database::Auto),
    );
    let result = handle_pruning_settings(&mut given);
    assert_eq!(
        given,
        settings(
            true,
            Some(DatabasePruningMode::Custom(2048)),
            DatabasePruningMode::ArchiveCanonical,
            Some(Database::ParityDb)
        )
    );
    assert_eq!(result.invalid_state_pruning_setting, Err(2047));
    assert_eq!(result.invalid_blocks_pruning_setting, Err(5));
    assert_eq!(result.invalid_database_backend, Err(Database::Auto));
    assert_eq!(
        report_pruning_validation_result(true, &result),
        vec![
            PruningWarning::StatePruningTooSmall {
                minimum: 2048,
                blocks: 2047
            },
            PruningWarning::BlocksPruningInvalid { kept: 5 },
            PruningWarning::DatabaseInvalid {
                database: Database::Auto
            },
        ]
    );
    // settings that were replaced are not replaced again
    let replaced = given;
    let result = handle_pruning_settings(&mut given);
    assert_eq!(given, replaced);
    assert_eq!(report_pruning_validation_result(true, &result), vec![]);
}

#[test]
fn supported_settings_are_kept() {
    let mut given = settings(
        true,
        Some(DatabasePruningMode::ArchiveCanonical),
        DatabasePruningMode::Archive,
        Some(Database::ParityDb),
    );
    let result = handle_pruning_settings(&mut given);
    assert_eq!(
        given,
        settings(
            true,
            Some(DatabasePruningMode::ArchiveCanonical),
            DatabasePruningMode::Archive,
            Some(Database::ParityDb)
        )
    );
    assert_eq!(report_pruning_validation_result(true, &result), vec![]);
}

#[test]
fn missing_settings_get_defaults_with_pruning() {
    let mut given = settings(true, None, DatabasePruningMode::ArchiveCanonical, None);
    let result = handle_pruning_settings(&mut given);
    assert_eq!(given.pruning_params.state_pruning, Some(DatabasePruningMode::Custom(2048)));
    assert_eq!(given.database, Some(Database::ParityDb));
    assert!(!result.overwritten_pruning);
    assert_eq!(default_state_pruning_when_pruning_enabled(), 2048);
    assert_eq!(default_database_for_pruning(), Database::ParityDb);
}

#[test]
fn modes_are_told_apart() {
    let params = PruningParams {
        state_pruning: Some(DatabasePruningMode::Custom(7)),
        blocks_pruning: DatabasePruningMode::Custom(9),
    };
    assert!(pruning_changed(&params));
    assert_eq!(params.state_pruning(), Some(PruningMode::Constrained(7)));
    assert_eq!(params.blocks_pruning(), BlocksPruning::KeepSome(9));
    let params = PruningParams {
        state_pruning: Some(DatabasePruningMode::ArchiveCanonical),
        blocks_pruning: DatabasePruningMode::Archive,
    };
    assert_eq!(params.state_pruning(), Some(PruningMode::ArchiveCanonical));
    assert_eq!(params.blocks_pruning(), BlocksPruning::KeepAll);
}

#[test]
fn only_validators_announce_addresses() {
    assert_eq!(addressing(Role::Authority, 2), Addressing::Configured);
    assert_eq!(addressing(Role::Authority, 0), Addressing::Configured);
    assert_eq!(addressing(Role::Full, 0), Addressing::Dummy);
    assert_eq!(addressing(Role::Full, 1), Addressing::Refused);
}

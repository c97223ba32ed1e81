//! Which pruning settings a node runs with, whatever it was asked for.

use vstd::prelude::*;

verus! {

/// What a database keeps.
#[derive(Clone, Copy, Debug, PartialEq, Eq, Structural)]
pub enum DatabasePruningMode {
    /// Everything.
    Archive,
    /// Everything of the canonical chain.
    ArchiveCanonical,
    /// As many of the latest blocks.
    Custom(u32),
}

/// A database backend.
#[derive(Clone, Copy, Debug, PartialEq, Eq, Structural)]
pub enum Database {
    RocksDb,
    ParityDb,
    Auto,
    ParityDbDeprecated,
}

/// How a node prunes states.
#[derive(Clone, Copy, Debug, PartialEq, Eq, Structural)]
pub enum PruningMode {
    ArchiveAll,
    ArchiveCanonical,
    /// Keeps the states of at most so many blocks.
    Constrained(u32),
}

/// How a node prunes block bodies.
#[derive(Clone, Copy, Debug, PartialEq, Eq, Structural)]
pub enum BlocksPruning {
    KeepAll,
    KeepFinalized,
    /// Keeps so many finalized blocks.
    KeepSome(u32),
}

/// Which pruning was asked for.
#[derive(Clone, Copy, Debug, PartialEq, Eq, Structural)]
pub struct PruningParams {
    pub state_pruning: Option<DatabasePruningMode>,
    pub blocks_pruning: DatabasePruningMode,
}

impl PruningParams {
    /// How states are pruned, if anything was asked for.
    pub fn state_pruning(&self) -> (mode: Option<PruningMode>)
        ensures
            mode == match self.state_pruning {
                None => None,
                Some(DatabasePruningMode::Archive) => Some(PruningMode::ArchiveAll),
                Some(DatabasePruningMode::ArchiveCanonical) => Some(PruningMode::ArchiveCanonical),
                Some(DatabasePruningMode::Custom(blocks)) => Some(PruningMode::Constrained(blocks)),
            },
    {
        match self.state_pruning {
            None => None,
            Some(DatabasePruningMode::Archive) => Some(PruningMode::ArchiveAll),
            Some(DatabasePruningMode::ArchiveCanonical) => Some(PruningMode::ArchiveCanonical),
            Some(DatabasePruningMode::Custom(blocks)) => Some(PruningMode::Constrained(blocks)),
        }
    }

    /// How block bodies are pruned.
    pub fn blocks_pruning(&self) -> (mode: BlocksPruning)
        ensures
            mode == match self.blocks_pruning {
                DatabasePruningMode::Archive => BlocksPruning::KeepAll,
                DatabasePruningMode::ArchiveCanonical => BlocksPruning::KeepFinalized,
                DatabasePruningMode::Custom(blocks) => BlocksPruning::KeepSome(blocks),
            },
    {
        match self.blocks_pruning {
            DatabasePruningMode::Archive => BlocksPruning::KeepAll,
            DatabasePruningMode::ArchiveCanonical => BlocksPruning::KeepFinalized,
            DatabasePruningMode::Custom(blocks) => BlocksPruning::KeepSome(blocks),
        }
    }
}

/// The settings of a node that have to do with pruning.
#[derive(Clone, Copy, Debug, PartialEq, Eq, Structural)]
pub struct StorageSettings {
    /// Whether pruning is enabled.
    pub pruning: bool,
    pub pruning_params: PruningParams,
    /// The database backend, if one was chosen.
    pub database: Option<Database>,
}

/// The smallest number of blocks whose states are kept with pruning enabled.
pub const MIN_STATE_PRUNING: u32 = 2048;

/// What states a node without pruning keeps.
pub fn default_state_pruning() -> (mode: DatabasePruningMode)
    ensures
        mode == DatabasePruningMode::Archive,
{
    DatabasePruningMode::Archive
}

/// What block bodies a node keeps by default.
pub fn default_blocks_pruning() -> (mode: DatabasePruningMode)
    ensures
        mode == DatabasePruningMode::ArchiveCanonical,
{
    DatabasePruningMode::ArchiveCanonical
}

/// Of how many blocks a node with pruning keeps the states by default.
pub fn default_state_pruning_when_pruning_enabled() -> (blocks: u32)
    ensures
        blocks == MIN_STATE_PRUNING,
{
    MIN_STATE_PRUNING
}

/// The only database backend that supports pruning.
pub fn default_database_for_pruning() -> (database: Database)
    ensures
        database == Database::ParityDb,
{
    Database::ParityDb
}

/// Whether pruning was asked for that a node without pruning does not do.
pub open spec fn asks_for_pruning(params: PruningParams) -> bool {
    ||| params.state_pruning is Some && params.state_pruning != Some(DatabasePruningMode::Archive)
    ||| params.blocks_pruning != DatabasePruningMode::ArchiveCanonical
}

/// Whether pruning was asked for that a node without pruning does not do.
pub fn pruning_changed(params: &PruningParams) -> (changed: bool)
    ensures
        changed == asks_for_pruning(*params),
{
    let state_pruning_changed: bool = match params.state_pruning {
        Some(state_pruning) => state_pruning != default_state_pruning(),
        None => false,
    };
    let blocks_pruning_changed: bool = params.blocks_pruning != default_blocks_pruning();
    state_pruning_changed || blocks_pruning_changed
}

/// What was wrong with the settings that were asked for.
#[derive(Clone, Copy, Debug, PartialEq, Eq)]
pub struct PruningConfigValidationResult {
    pub overwritten_pruning: bool,
    pub invalid_state_pruning_setting: Result<(), u32>,
    pub invalid_blocks_pruning_setting: Result<(), u32>,
    pub invalid_database_backend: Result<(), Database>,
}

/// The state pruning that a node runs with.
pub open spec fn effective_state_pruning(settings: StorageSettings) -> DatabasePruningMode {
    if !settings.pruning {
        DatabasePruningMode::Archive
    } else {
        match settings.pruning_params.state_pruning {
            None => DatabasePruningMode::Custom(MIN_STATE_PRUNING),
            Some(DatabasePruningMode::Custom(blocks)) if blocks < MIN_STATE_PRUNING =>
                DatabasePruningMode::Custom(MIN_STATE_PRUNING),
            Some(mode) => mode,
        }
    }
}

/// The block pruning that a node runs with.
pub open spec fn effective_blocks_pruning(settings: StorageSettings) -> DatabasePruningMode {
    if settings.pruning && settings.pruning_params.blocks_pruning is Archive {
        DatabasePruningMode::Archive
    } else {
        DatabasePruningMode::ArchiveCanonical
    }
}

/// The settings that a node runs with.
pub open spec fn effective(settings: StorageSettings) -> StorageSettings {
    StorageSettings {
        pruning: settings.pruning,
        pruning_params: PruningParams {
            state_pruning: Some(effective_state_pruning(settings)),
            blocks_pruning: effective_blocks_pruning(settings),
        },
        database: if settings.pruning {
            Some(Database::ParityDb)
        } else {
            settings.database
        },
    }
}

/// What is wrong with the settings.
pub open spec fn validation(settings: StorageSettings) -> PruningConfigValidationResult {
    PruningConfigValidationResult {
        overwritten_pruning: asks_for_pruning(settings.pruning_params),
        invalid_state_pruning_setting: match settings.pruning_params.state_pruning {
            Some(DatabasePruningMode::Custom(blocks)) if settings.pruning && blocks
                < MIN_STATE_PRUNING => Err(blocks),
            _ => Ok(()),
        },
        invalid_blocks_pruning_setting: match settings.pruning_params.blocks_pruning {
            DatabasePruningMode::Custom(blocks) if settings.pruning => Err(blocks),
            _ => Ok(()),
        },
        invalid_database_backend: match settings.database {
            Some(database) if settings.pruning && database != Database::ParityDb => Err(database),
            _ => Ok(()),
        },
    }
}

/// Replaces settings that the node does not support, and says which they were.
pub fn handle_pruning_settings(settings: &mut StorageSettings) -> (result:
    PruningConfigValidationResult)
    ensures
        *final(settings) == effective(*old(settings)),
        result == validation(*old(settings)),
{
    let overwritten_pruning: bool = pruning_changed(&settings.pruning_params);
    let mut result = PruningConfigValidationResult {
        overwritten_pruning,
        invalid_state_pruning_setting: Ok(()),
        invalid_blocks_pruning_setting: Ok(()),
        invalid_database_backend: Ok(()),
    };
    if !settings.pruning {
        settings.pruning_params.state_pruning = Some(default_state_pruning());
        settings.pruning_params.blocks_pruning = default_blocks_pruning();
        return result;
    }
    match settings.pruning_params.state_pruning {
        Some(mode) => match mode {
            DatabasePruningMode::Archive | DatabasePruningMode::ArchiveCanonical => {},
            DatabasePruningMode::Custom(max_blocks) => {
                if max_blocks < default_state_pruning_when_pruning_enabled() {
                    result.invalid_state_pruning_setting = Err(max_blocks);
                    settings.pruning_params.state_pruning = Some(
                        DatabasePruningMode::Custom(default_state_pruning_when_pruning_enabled()),
                    );
                }
            },
        },
        None => {
            settings.pruning_params.state_pruning = Some(
                DatabasePruningMode::Custom(default_state_pruning_when_pruning_enabled()),
            );
        },
    }
    match settings.pruning_params.blocks_pruning {
        DatabasePruningMode::Archive | DatabasePruningMode::ArchiveCanonical => {},
        DatabasePruningMode::Custom(blocks_pruning) => {
            result.invalid_blocks_pruning_setting = Err(blocks_pruning);
            settings.pruning_params.blocks_pruning = default_blocks_pruning();
        },
    }
    match settings.database {
        Some(database) => match database {
            Database::ParityDb => {},
            Database::RocksDb | Database::Auto | Database::ParityDbDeprecated => {
                result.invalid_database_backend = Err(database);
                settings.database = Some(default_database_for_pruning());
            },
        },
        None => {
            settings.database = Some(default_database_for_pruning());
        },
    }
    result
}

/// What the operator of a node is warned of.
#[derive(Clone, Copy, Debug, PartialEq, Eq, Structural)]
pub enum PruningWarning {
    /// Pruning was asked for without being enabled: everything is kept.
    NotSupported,
    /// The states of fewer blocks than supported were to be kept.
    StatePruningTooSmall { minimum: u32, blocks: u32 },
    /// Block bodies were to be pruned in a way that is not supported.
    BlocksPruningInvalid { kept: u32 },
    /// A database backend was chosen that does not support pruning.
    DatabaseInvalid { database: Database },
}

/// The warnings for what was wrong with the settings, in order.
pub open spec fn warnings(pruning: bool, result: PruningConfigValidationResult) -> Seq<
    PruningWarning,
> {
    if !pruning {
        if result.overwritten_pruning {
            seq![PruningWarning::NotSupported]
        } else {
            seq![]
        }
    } else {
        let state: Seq<PruningWarning> = match result.invalid_state_pruning_setting {
            Err(blocks) => seq![
                PruningWarning::StatePruningTooSmall { minimum: MIN_STATE_PRUNING, blocks },
            ],
            Ok(()) => seq![],
        };
        let blocks: Seq<PruningWarning> = match result.invalid_blocks_pruning_setting {
            Err(kept) => seq![PruningWarning::BlocksPruningInvalid { kept }],
            Ok(()) => seq![],
        };
        let database: Seq<PruningWarning> = match result.invalid_database_backend {
            Err(database) => seq![PruningWarning::DatabaseInvalid { database }],
            Ok(()) => seq![],
        };
        state + blocks + database
    }
}

/// What to warn the operator of, in order.
pub fn report_pruning_validation_result(
    pruning: bool,
    result: &PruningConfigValidationResult,
) -> (report: Vec<PruningWarning>)
    ensures
        report@ == warnings(pruning, *result),
{
    let mut report: Vec<PruningWarning> = Vec::new();
    if !pruning {
        if result.overwritten_pruning {
            report.push(PruningWarning::NotSupported);
        }
        proof {
            assert(report@ =~= warnings(pruning, *result));
        }
        return report;
    }
    if let Err(blocks) = result.invalid_state_pruning_setting {
        let minimum: u32 = default_state_pruning_when_pruning_enabled();
        report.push(PruningWarning::StatePruningTooSmall { minimum, blocks });
    }
    if let Err(kept) = result.invalid_blocks_pruning_setting {
        report.push(PruningWarning::BlocksPruningInvalid { kept });
    }
    if let Err(database) = result.invalid_database_backend {
        report.push(PruningWarning::DatabaseInvalid { database });
    }
    proof {
        assert(report@ =~= warnings(pruning, *result));
    }
    report
}

/// Whether a node can run with the settings.
pub open spec fn supported(settings: StorageSettings) -> bool {
    if settings.pruning {
        &&& match settings.pruning_params.state_pruning {
            None => false,
            Some(DatabasePruningMode::Custom(blocks)) => blocks >= MIN_STATE_PRUNING,
            Some(_) => true,
        }
        &&& !(settings.pruning_params.blocks_pruning is Custom)
        &&& settings.database == Some(Database::ParityDb)
    } else {
        &&& settings.pruning_params.state_pruning == Some(DatabasePruningMode::Archive)
        &&& settings.pruning_params.blocks_pruning == DatabasePruningMode::ArchiveCanonical
    }
}

/// Whatever was asked for, the node runs with settings that it supports.
pub proof fn settings_become_supported(settings: StorageSettings)
    ensures
        supported(effective(settings)),
        effective(settings).pruning == settings.pruning,
{
}

/// Supported settings are kept as they are, and nothing is warned of. So
/// settings that were replaced once are not replaced again.
pub proof fn supported_settings_are_kept(settings: StorageSettings)
    requires
        supported(settings),
    ensures
        effective(settings) == settings,
        warnings(settings.pruning, validation(settings)).len() == 0,
        effective(effective(settings)) == effective(settings),
{
    assert(warnings(settings.pruning, validation(settings)) =~= seq![]);
}

/// The operator is warned of every choice that is not followed: a choice that
/// was made is either kept or named in a warning.
pub proof fn no_choice_is_dropped_silently(settings: StorageSettings)
    ensures
        ({
            let run = effective(settings);
            let report = warnings(settings.pruning, validation(settings));
            &&& settings.pruning_params.state_pruning is Some && run.pruning_params.state_pruning
                != settings.pruning_params.state_pruning ==> report.len() > 0
            &&& run.pruning_params.blocks_pruning != settings.pruning_params.blocks_pruning
                ==> report.len() > 0
            &&& settings.database is Some && run.database != settings.database ==> report.len() > 0
        }),
{
}

/// Without pruning everything is kept whatever was asked for: all states, and all
/// blocks of the canonical chain. The database is the one that was chosen.
pub proof fn nothing_is_pruned_unless_enabled(settings: StorageSettings)
    requires
        !settings.pruning,
    ensures
        ({
            let run = effective(settings);
            &&& !run.pruning
            &&& run.pruning_params.state_pruning == Some(DatabasePruningMode::Archive)
            &&& run.pruning_params.blocks_pruning == DatabasePruningMode::ArchiveCanonical
            &&& run.database == settings.database
        }),
{
}

/// With pruning the states of as many blocks are kept as were asked for, but never
/// of fewer than the smallest number, which is also what is kept by default; what
/// is kept in full stays so. Blocks are pruned in no other way than to the
/// canonical chain, and the database is the one that can prune.
pub proof fn enabled_pruning_keeps_what_it_must(settings: StorageSettings)
    requires
        settings.pruning,
    ensures
        ({
            let run = effective(settings);
            let asked = settings.pruning_params.state_pruning;
            &&& run.pruning
            &&& asked is None ==> run.pruning_params.state_pruning == Some(
                DatabasePruningMode::Custom(2048),
            )
            &&& asked matches Some(DatabasePruningMode::Custom(blocks)) ==> (
            run.pruning_params.state_pruning matches Some(DatabasePruningMode::Custom(kept))
                && kept >= blocks && kept >= 2048 && (kept == blocks || kept == 2048))
            &&& asked == Some(DatabasePruningMode::Archive) || asked == Some(
                DatabasePruningMode::ArchiveCanonical,
            ) ==> run.pruning_params.state_pruning == asked
            &&& settings.pruning_params.blocks_pruning is Custom
                ==> run.pruning_params.blocks_pruning == DatabasePruningMode::ArchiveCanonical
            &&& !(settings.pruning_params.blocks_pruning is Custom)
                ==> run.pruning_params.blocks_pruning == settings.pruning_params.blocks_pruning
            &&& run.database == Some(Database::ParityDb)
        }),
{
}

/// The operator of a node without pruning is warned exactly where pruning was asked
/// for: of states other than to keep all, or of blocks other than to the canonical
/// chain.
pub proof fn pruning_that_is_not_enabled_is_warned_of(settings: StorageSettings)
    requires
        !settings.pruning,
    ensures
        ({
            let report = warnings(settings.pruning, validation(settings));
            let params = settings.pruning_params;
            let keeps_all = (params.state_pruning is None || params.state_pruning == Some(
                DatabasePruningMode::Archive,
            )) && params.blocks_pruning == DatabasePruningMode::ArchiveCanonical;
            &&& keeps_all ==> report.len() == 0
            &&& !keeps_all ==> report == seq![PruningWarning::NotSupported]
            &&& asks_for_pruning(params) == !keeps_all
        }),
{
}

/// The operator of a node with pruning is warned of each setting that is replaced,
/// by what was asked for, and of no other: first of states, then of blocks, then
/// of the database.
pub proof fn replaced_settings_are_warned_of(settings: StorageSettings, warning: PruningWarning)
    requires
        settings.pruning,
    ensures
        ({
            let report = warnings(settings.pruning, validation(settings));
            let params = settings.pruning_params;
            let few = params.state_pruning matches Some(DatabasePruningMode::Custom(blocks))
                && blocks < 2048;
            let some_blocks = params.blocks_pruning is Custom;
            let other_database = settings.database is Some && settings.database != Some(
                Database::ParityDb,
            );
            &&& report.contains(warning) <==> match warning {
                PruningWarning::NotSupported => false,
                PruningWarning::StatePruningTooSmall { minimum, blocks } => minimum == 2048
                    && blocks < 2048 && params.state_pruning == Some(
                    DatabasePruningMode::Custom(blocks),
                ),
                PruningWarning::BlocksPruningInvalid { kept } => params.blocks_pruning
                    == DatabasePruningMode::Custom(kept),
                PruningWarning::DatabaseInvalid { database } => settings.database == Some(database)
                    && database != Database::ParityDb,
            }
            &&& report.len() == (if few {
                1int
            } else {
                0
            }) + (if some_blocks {
                1int
            } else {
                0
            }) + (if other_database {
                1int
            } else {
                0
            })
            &&& few ==> report[0] is StatePruningTooSmall
            &&& other_database ==> report.last() is DatabaseInvalid
        }),
{
    let result = validation(settings);
    let report = warnings(settings.pruning, result);
    let state: Seq<PruningWarning> = match result.invalid_state_pruning_setting {
        Err(blocks) => seq![
            PruningWarning::StatePruningTooSmall { minimum: MIN_STATE_PRUNING, blocks },
        ],
        Ok(()) => seq![],
    };
    let blocks: Seq<PruningWarning> = match result.invalid_blocks_pruning_setting {
        Err(kept) => seq![PruningWarning::BlocksPruningInvalid { kept }],
        Ok(()) => seq![],
    };
    let database: Seq<PruningWarning> = match result.invalid_database_backend {
        Err(database) => seq![PruningWarning::DatabaseInvalid { database }],
        Ok(()) => seq![],
    };
    assert(report == state + blocks + database);
    assert(report.len() == state.len() + blocks.len() + database.len());
    if state.len() > 0 {
        assert(report[0] == state[0]);
        assert(report.contains(state[0]));
    }
    if blocks.len() > 0 {
        assert(report[state.len() as int] == blocks[0]);
        assert(report.contains(blocks[0]));
    }
    if database.len() > 0 {
        assert(report[(state.len() + blocks.len()) as int] == database[0]);
        assert(report.contains(database[0]));
    }
    if report.contains(warning) {
        let k = choose|k: int| 0 <= k < report.len() && report[k] == warning;
        if k < state.len() {
            assert(report[k] == state[k]);
        } else if k < state.len() + blocks.len() {
            assert(report[k] == blocks[k - state.len()]);
        } else {
            assert(report[k] == database[k - state.len() - blocks.len()]);
        }
    }
}

/// Different settings mean different pruning: what is kept in full, of the
/// canonical chain, or for so many blocks, is kept so for states and for blocks.
pub proof fn settings_mean_what_they_say(
    params: PruningParams,
    states: Option<PruningMode>,
    blocks: BlocksPruning,
)
    requires
        call_ensures(PruningParams::state_pruning, (&params,), states),
        call_ensures(PruningParams::blocks_pruning, (&params,), blocks),
    ensures
        states is None <==> params.state_pruning is None,
        states == Some(PruningMode::ArchiveAll) <==> params.state_pruning == Some(
            DatabasePruningMode::Archive,
        ),
        states == Some(PruningMode::ArchiveCanonical) <==> params.state_pruning == Some(
            DatabasePruningMode::ArchiveCanonical,
        ),
        states matches Some(PruningMode::Constrained(kept)) ==> params.state_pruning == Some(
            DatabasePruningMode::Custom(kept),
        ),
        blocks == BlocksPruning::KeepAll <==> params.blocks_pruning == DatabasePruningMode::Archive,
        blocks == BlocksPruning::KeepFinalized <==> params.blocks_pruning
            == DatabasePruningMode::ArchiveCanonical,
        blocks matches BlocksPruning::KeepSome(kept) ==> params.blocks_pruning
            == DatabasePruningMode::Custom(kept),
{
}

} // verus!

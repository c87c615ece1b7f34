//! The decisions of the upgrade coordinator: from the state a receipt was last
//! persisted in, which quiescence checkpoints to confirm and which store step to
//! run next, until the receipt reaches a terminal state.

use vstd::prelude::*;

use crate::upgrade_receipt::{
    normal_successor_spec, ProductRelease, UpgradeArtifactSlot, UpgradeReceipt, UpgradeState,
};
use crate::upgrade_store::{
    recorded_artifact, recorded_in, UpgradeCandidateValidationReport, UpgradeFilesystemError,
    UpgradeFilesystemErrorCode, UpgradeRollbackValidationEvidence,
};

verus! {

/// The moments at which the coordinator asks that no endpoint uses the data.
#[derive(Debug, Clone, Copy, PartialEq, Eq, Structural)]
pub enum UpgradeCoordinatorCheckpoint {
    BeforeQuiesced,
    BeforeSettingsBackup,
    BeforeSnapshot,
    BeforeCandidateMigration,
    BeforeCandidateValidation,
    AfterCandidateValidation,
    BeforeSwitch,
    BeforePostSwitchValidation,
    AfterPostSwitchValidation,
    BeforeCompletion,
    BeforeRollbackRestore,
    BeforeSourceValidation,
    AfterSourceValidation,
}

/// What the coordinator needs from the endpoints: proof of quiescence and the
/// validation of the candidate and of a restored source.
pub trait UpgradeCoordinatorPort {
    fn confirm_quiescence(&mut self, checkpoint: UpgradeCoordinatorCheckpoint) -> bool;

    fn validate_candidate(
        &mut self,
        target_release: &ProductRelease,
        target_schema_version: i64,
    ) -> UpgradeCandidateValidationReport;

    fn validate_restored_source(
        &mut self,
        source_release: &ProductRelease,
        source_schema_version: i64,
    ) -> Option<UpgradeRollbackValidationEvidence>;
}

#[derive(Debug, Clone, Copy, PartialEq, Eq, Structural)]
pub enum UpgradeCoordinatorDisposition {
    Completed,
    AbortedPreserved,
    RolledBack,
}

/// How a coordinated upgrade ended.
#[derive(Debug, Clone, Copy, PartialEq, Eq, Structural)]
pub struct UpgradeCoordinatorSummary {
    pub disposition: UpgradeCoordinatorDisposition,
}

impl UpgradeCoordinatorSummary {
    pub fn disposition(self) -> (r: UpgradeCoordinatorDisposition)
        ensures
            r == self.disposition,
    {
        self.disposition
    }
}

#[derive(Debug, Clone, Copy, PartialEq, Eq, Structural)]
pub enum UpgradeCoordinatorError {
    Filesystem(UpgradeFilesystemErrorCode),
    QuiescenceNotProven(UpgradeCoordinatorCheckpoint),
    SourceValidationNotProven,
}

impl UpgradeCoordinatorError {
    /// The coordinator error that reports a store failure.
    pub fn from_filesystem(error: UpgradeFilesystemError) -> (r: Self)
        ensures
            r == UpgradeCoordinatorError::Filesystem(error.code_spec()),
    {
        UpgradeCoordinatorError::Filesystem(error.code())
    }

    pub open spec fn message_spec(self) -> &'static str {
        match self {
            UpgradeCoordinatorError::Filesystem(_) => "upgrade coordination filesystem failure",
            UpgradeCoordinatorError::QuiescenceNotProven(_) => "upgrade coordination quiescence was not proven",
            UpgradeCoordinatorError::SourceValidationNotProven => "upgrade rollback source validation was not proven",
        }
    }

    pub fn message(&self) -> (r: &'static str)
        ensures
            r == self.message_spec(),
    {
        match self {
            UpgradeCoordinatorError::Filesystem(_) => "upgrade coordination filesystem failure",
            UpgradeCoordinatorError::QuiescenceNotProven(_) => "upgrade coordination quiescence was not proven",
            UpgradeCoordinatorError::SourceValidationNotProven => "upgrade rollback source validation was not proven",
        }
    }
}

/// Turns an endpoint's answer at a checkpoint into a go-ahead or a refusal.
pub fn require_quiescence(confirmed: bool, checkpoint: UpgradeCoordinatorCheckpoint) -> (r: Result<
    (),
    UpgradeCoordinatorError,
>)
    ensures
        confirmed ==> r is Ok,
        !confirmed ==> r == Err::<(), UpgradeCoordinatorError>(UpgradeCoordinatorError::QuiescenceNotProven(checkpoint)),
{
    if confirmed {
        Ok(())
    } else {
        Err(UpgradeCoordinatorError::QuiescenceNotProven(checkpoint))
    }
}

/// What the coordinator does next from a persisted state.
#[derive(Debug, Clone, Copy, PartialEq, Eq, Structural)]
pub enum CoordinatorPlan {
    /// Confirm quiescence, then persist `Quiesced`.
    Quiesce,
    /// Back up the recorded settings, then snapshot the database.
    BackupSettingsThenSnapshot,
    /// Snapshot the database.
    Snapshot,
    /// Migrate a candidate from the snapshot.
    MigrateCandidate,
    /// Validate the candidate with both endpoints and record the outcome.
    ValidateCandidate,
    /// Switch the candidate in.
    Switch,
    /// Validate the switched candidate and record the outcome.
    ValidatePostSwitch,
    /// Complete the upgrade.
    Complete,
    /// Restore the source, have it validated, and record the rollback.
    RestoreAndValidateSource,
    /// Nothing is left to do.
    Finish(UpgradeCoordinatorDisposition),
}

/// The plan for a receipt persisted in `state`; `settings_recorded` tells whether
/// the receipt records source settings to back up.
pub open spec fn coordinator_plan_spec(state: UpgradeState, settings_recorded: bool) -> CoordinatorPlan {
    match state {
        UpgradeState::Preflighted => CoordinatorPlan::Quiesce,
        UpgradeState::Quiesced => if settings_recorded {
            CoordinatorPlan::BackupSettingsThenSnapshot
        } else {
            CoordinatorPlan::Snapshot
        },
        UpgradeState::SnapshotReady => CoordinatorPlan::MigrateCandidate,
        UpgradeState::CandidateMigrated => CoordinatorPlan::ValidateCandidate,
        UpgradeState::CandidateVerified | UpgradeState::SwitchPrepared => CoordinatorPlan::Switch,
        UpgradeState::Switched => CoordinatorPlan::ValidatePostSwitch,
        UpgradeState::PostSwitchVerified => CoordinatorPlan::Complete,
        UpgradeState::RollbackRequired => CoordinatorPlan::RestoreAndValidateSource,
        UpgradeState::Completed => CoordinatorPlan::Finish(UpgradeCoordinatorDisposition::Completed),
        UpgradeState::AbortedPreserved => CoordinatorPlan::Finish(UpgradeCoordinatorDisposition::AbortedPreserved),
        UpgradeState::RolledBack => CoordinatorPlan::Finish(UpgradeCoordinatorDisposition::RolledBack),
    }
}

pub fn coordinator_plan(state: UpgradeState, settings_recorded: bool) -> (r: CoordinatorPlan)
    ensures
        r == coordinator_plan_spec(state, settings_recorded),
{
    match state {
        UpgradeState::Preflighted => CoordinatorPlan::Quiesce,
        UpgradeState::Quiesced => {
            if settings_recorded {
                CoordinatorPlan::BackupSettingsThenSnapshot
            } else {
                CoordinatorPlan::Snapshot
            }
        },
        UpgradeState::SnapshotReady => CoordinatorPlan::MigrateCandidate,
        UpgradeState::CandidateMigrated => CoordinatorPlan::ValidateCandidate,
        UpgradeState::CandidateVerified | UpgradeState::SwitchPrepared => CoordinatorPlan::Switch,
        UpgradeState::Switched => CoordinatorPlan::ValidatePostSwitch,
        UpgradeState::PostSwitchVerified => CoordinatorPlan::Complete,
        UpgradeState::RollbackRequired => CoordinatorPlan::RestoreAndValidateSource,
        UpgradeState::Completed => CoordinatorPlan::Finish(UpgradeCoordinatorDisposition::Completed),
        UpgradeState::AbortedPreserved => CoordinatorPlan::Finish(UpgradeCoordinatorDisposition::AbortedPreserved),
        UpgradeState::RolledBack => CoordinatorPlan::Finish(UpgradeCoordinatorDisposition::RolledBack),
    }
}

/// The checkpoints a plan confirms, in order; each store step of the plan runs
/// only after the checkpoint just before it was confirmed.
pub open spec fn plan_checkpoints(plan: CoordinatorPlan) -> Seq<UpgradeCoordinatorCheckpoint> {
    match plan {
        CoordinatorPlan::Quiesce => seq![UpgradeCoordinatorCheckpoint::BeforeQuiesced],
        CoordinatorPlan::BackupSettingsThenSnapshot => seq![
            UpgradeCoordinatorCheckpoint::BeforeSettingsBackup,
            UpgradeCoordinatorCheckpoint::BeforeSnapshot,
        ],
        CoordinatorPlan::Snapshot => seq![UpgradeCoordinatorCheckpoint::BeforeSnapshot],
        CoordinatorPlan::MigrateCandidate => seq![UpgradeCoordinatorCheckpoint::BeforeCandidateMigration],
        CoordinatorPlan::ValidateCandidate => seq![
            UpgradeCoordinatorCheckpoint::BeforeCandidateValidation,
            UpgradeCoordinatorCheckpoint::AfterCandidateValidation,
        ],
        CoordinatorPlan::Switch => seq![UpgradeCoordinatorCheckpoint::BeforeSwitch],
        CoordinatorPlan::ValidatePostSwitch => seq![
            UpgradeCoordinatorCheckpoint::BeforePostSwitchValidation,
            UpgradeCoordinatorCheckpoint::AfterPostSwitchValidation,
        ],
        CoordinatorPlan::Complete => seq![UpgradeCoordinatorCheckpoint::BeforeCompletion],
        CoordinatorPlan::RestoreAndValidateSource => seq![
            UpgradeCoordinatorCheckpoint::BeforeRollbackRestore,
            UpgradeCoordinatorCheckpoint::BeforeSourceValidation,
            UpgradeCoordinatorCheckpoint::AfterSourceValidation,
        ],
        CoordinatorPlan::Finish(_) => seq![],
    }
}

pub fn checkpoints_of(plan: CoordinatorPlan) -> (r: Vec<UpgradeCoordinatorCheckpoint>)
    ensures
        r@ == plan_checkpoints(plan),
{
    match plan {
        CoordinatorPlan::Quiesce => vec![UpgradeCoordinatorCheckpoint::BeforeQuiesced],
        CoordinatorPlan::BackupSettingsThenSnapshot => vec![
            UpgradeCoordinatorCheckpoint::BeforeSettingsBackup,
            UpgradeCoordinatorCheckpoint::BeforeSnapshot,
        ],
        CoordinatorPlan::Snapshot => vec![UpgradeCoordinatorCheckpoint::BeforeSnapshot],
        CoordinatorPlan::MigrateCandidate => vec![UpgradeCoordinatorCheckpoint::BeforeCandidateMigration],
        CoordinatorPlan::ValidateCandidate => vec![
            UpgradeCoordinatorCheckpoint::BeforeCandidateValidation,
            UpgradeCoordinatorCheckpoint::AfterCandidateValidation,
        ],
        CoordinatorPlan::Switch => vec![UpgradeCoordinatorCheckpoint::BeforeSwitch],
        CoordinatorPlan::ValidatePostSwitch => vec![
            UpgradeCoordinatorCheckpoint::BeforePostSwitchValidation,
            UpgradeCoordinatorCheckpoint::AfterPostSwitchValidation,
        ],
        CoordinatorPlan::Complete => vec![UpgradeCoordinatorCheckpoint::BeforeCompletion],
        CoordinatorPlan::RestoreAndValidateSource => vec![
            UpgradeCoordinatorCheckpoint::BeforeRollbackRestore,
            UpgradeCoordinatorCheckpoint::BeforeSourceValidation,
            UpgradeCoordinatorCheckpoint::AfterSourceValidation,
        ],
        CoordinatorPlan::Finish(_) => Vec::new(),
    }
}

/// The coordinator stops exactly at terminal receipts, reporting how each ended,
/// and asks for quiescence before every step it takes on a non-terminal receipt.
pub proof fn lemma_coordinator_stops_only_at_terminal(state: UpgradeState, settings_recorded: bool)
    ensures
        coordinator_plan_spec(state, settings_recorded) is Finish <==> state.terminal(),
        coordinator_plan_spec(state, settings_recorded) matches CoordinatorPlan::Finish(d) ==> match d {
            UpgradeCoordinatorDisposition::Completed => state == UpgradeState::Completed,
            UpgradeCoordinatorDisposition::AbortedPreserved => state == UpgradeState::AbortedPreserved,
            UpgradeCoordinatorDisposition::RolledBack => state == UpgradeState::RolledBack,
        },
        !state.terminal() ==> plan_checkpoints(coordinator_plan_spec(state, settings_recorded)).len() > 0,
{
}

/// The state a plan persists once its store step succeeds; a finished plan
/// persists nothing.
pub open spec fn plan_store_target(plan: CoordinatorPlan) -> Option<UpgradeState> {
    match plan {
        CoordinatorPlan::Quiesce => Some(UpgradeState::Quiesced),
        CoordinatorPlan::BackupSettingsThenSnapshot => Some(UpgradeState::SnapshotReady),
        CoordinatorPlan::Snapshot => Some(UpgradeState::SnapshotReady),
        CoordinatorPlan::MigrateCandidate => Some(UpgradeState::CandidateMigrated),
        CoordinatorPlan::ValidateCandidate => Some(UpgradeState::CandidateVerified),
        CoordinatorPlan::Switch => Some(UpgradeState::Switched),
        CoordinatorPlan::ValidatePostSwitch => Some(UpgradeState::PostSwitchVerified),
        CoordinatorPlan::Complete => Some(UpgradeState::Completed),
        CoordinatorPlan::RestoreAndValidateSource => Some(UpgradeState::RolledBack),
        CoordinatorPlan::Finish(_) => None,
    }
}

/// The coordinator never skips a step of the normal path: the state its plan
/// persists is the receipt's normal successor (the switch passes through
/// `SwitchPrepared` on its way to `Switched`), a rollback ends `RolledBack`, and
/// only terminal receipts persist nothing. In particular a switched receipt is
/// validated after the switch before anything else, completion is reached only
/// from `PostSwitchVerified`, and the settings are backed up exactly when the
/// receipt records them.
pub proof fn lemma_coordinator_plan_takes_the_next_step(state: UpgradeState, settings_recorded: bool)
    ensures
        ({
            let plan = coordinator_plan_spec(state, settings_recorded);
            &&& plan_store_target(plan) is None <==> state.terminal()
            &&& plan_store_target(plan) matches Some(target) ==> {
                ||| normal_successor_spec(state, target)
                ||| (state == UpgradeState::CandidateVerified && normal_successor_spec(state, UpgradeState::SwitchPrepared)
                    && normal_successor_spec(UpgradeState::SwitchPrepared, target))
                ||| (state == UpgradeState::RollbackRequired && target == UpgradeState::RolledBack)
            }
            &&& plan_store_target(plan) == Some(UpgradeState::Completed) ==> state == UpgradeState::PostSwitchVerified
            &&& plan_store_target(plan) == Some(UpgradeState::PostSwitchVerified) ==> plan_checkpoints(plan) == seq![
                UpgradeCoordinatorCheckpoint::BeforePostSwitchValidation,
                UpgradeCoordinatorCheckpoint::AfterPostSwitchValidation,
            ]
            &&& state == UpgradeState::Quiesced ==> (plan_checkpoints(plan).contains(
                UpgradeCoordinatorCheckpoint::BeforeSettingsBackup,
            ) <==> settings_recorded)
        }),
{
    let plan = coordinator_plan_spec(state, settings_recorded);
    if state == UpgradeState::Quiesced {
        if settings_recorded {
            assert(plan_checkpoints(plan)[0] == UpgradeCoordinatorCheckpoint::BeforeSettingsBackup);
        } else {
            assert(plan_checkpoints(plan) =~= seq![UpgradeCoordinatorCheckpoint::BeforeSnapshot]);
        }
    }
}

/// The length of the source settings the receipt records, if it records any.
pub fn source_settings_bytes(receipt: &UpgradeReceipt) -> (r: Option<u64>)
    requires
        receipt@.wf(),
    ensures
        match recorded_in(receipt@, UpgradeArtifactSlot::SourceSettings) {
            Some(identity) => r == Some(identity.byte_len),
            None => r is None,
        },
{
    match recorded_artifact(receipt, UpgradeArtifactSlot::SourceSettings) {
        Some(identity) => Some(identity.byte_len()),
        None => None,
    }
}

/// The free space left for the snapshot once the settings backup took its share;
/// a backup larger than the free space leaves too little.
pub fn snapshot_space_after_settings(reported_available_bytes: u64, settings_bytes: Option<u64>) -> (r: Result<
    u64,
    UpgradeCoordinatorError,
>)
    ensures
        ({
            let taken: int = match settings_bytes {
                Some(b) => b as int,
                None => 0,
            };
            &&& taken <= reported_available_bytes ==> r == Ok::<u64, UpgradeCoordinatorError>(
                (reported_available_bytes - taken) as u64,
            )
            &&& taken > reported_available_bytes ==> r == Err::<u64, UpgradeCoordinatorError>(
                UpgradeCoordinatorError::Filesystem(UpgradeFilesystemErrorCode::InsufficientSpace),
            )
        }),
{
    let taken = match settings_bytes {
        Some(b) => b,
        None => 0,
    };
    match reported_available_bytes.checked_sub(taken) {
        Some(left) => Ok(left),
        None => Err(UpgradeCoordinatorError::Filesystem(UpgradeFilesystemErrorCode::InsufficientSpace)),
    }
}

} // verus!

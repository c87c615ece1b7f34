//! Decisions of the upgrade receipt store: its error codes, the free-space budget
//! of a snapshot, the evidence that validates a candidate or a rollback, what may
//! be persisted over the current receipt, and whether the product may start.

use vstd::prelude::*;

use crate::upgrade_receipt::{
    artifact_views, UpgradeArtifactIdentity, UpgradeArtifactIdentityView, UpgradeArtifactSlot,
    UpgradeFailureCode, UpgradeReceipt, UpgradeReceiptView, UpgradeState,
};

verus! {

#[derive(Debug, Clone, Copy, PartialEq, Eq, Structural)]
pub enum UpgradeFilesystemErrorCode {
    UnsafeDataRoot,
    UnsafeStateDirectory,
    UnexpectedStateObject,
    InvalidReceipt,
    InvalidReceiptReplacement,
    InterruptedReceiptWrite,
    InterruptedSnapshot,
    InterruptedCandidate,
    InterruptedSwitch,
    InterruptedSettingsBackup,
    OperationAlreadyActive,
    InvalidSnapshotState,
    InvalidCandidateState,
    InvalidCandidateValidation,
    InvalidSwitchState,
    InvalidSettingsState,
    InsufficientSpace,
    SnapshotFailed,
    CandidateMigrationFailed,
    SwitchFailed,
    SettingsBackupFailed,
    IdentityChanged,
    Io,
}

impl UpgradeFilesystemErrorCode {
    pub open spec fn message_spec(self) -> &'static str {
        match self {
            UpgradeFilesystemErrorCode::UnsafeDataRoot => "upgrade data root is unsafe",
            UpgradeFilesystemErrorCode::UnsafeStateDirectory => "upgrade state directory is unsafe",
            UpgradeFilesystemErrorCode::UnexpectedStateObject => "upgrade state directory contains an unexpected object",
            UpgradeFilesystemErrorCode::InvalidReceipt => "upgrade receipt is invalid",
            UpgradeFilesystemErrorCode::InvalidReceiptReplacement => "upgrade receipt replacement is invalid",
            UpgradeFilesystemErrorCode::InterruptedReceiptWrite => "upgrade receipt write requires recovery",
            UpgradeFilesystemErrorCode::InterruptedSnapshot => "upgrade snapshot requires recovery",
            UpgradeFilesystemErrorCode::InterruptedCandidate => "upgrade migration candidate requires recovery",
            UpgradeFilesystemErrorCode::InterruptedSwitch => "upgrade database switch requires recovery",
            UpgradeFilesystemErrorCode::InterruptedSettingsBackup => "upgrade settings backup requires recovery",
            UpgradeFilesystemErrorCode::OperationAlreadyActive => "another upgrade operation is active",
            UpgradeFilesystemErrorCode::InvalidSnapshotState => "upgrade snapshot state is invalid",
            UpgradeFilesystemErrorCode::InvalidCandidateState => "upgrade migration candidate state is invalid",
            UpgradeFilesystemErrorCode::InvalidCandidateValidation => "upgrade candidate validation evidence is invalid",
            UpgradeFilesystemErrorCode::InvalidSwitchState => "upgrade database switch state is invalid",
            UpgradeFilesystemErrorCode::InvalidSettingsState => "upgrade settings backup state is invalid",
            UpgradeFilesystemErrorCode::InsufficientSpace => "upgrade snapshot has insufficient free space",
            UpgradeFilesystemErrorCode::SnapshotFailed => "upgrade snapshot failed",
            UpgradeFilesystemErrorCode::CandidateMigrationFailed => "upgrade migration candidate failed",
            UpgradeFilesystemErrorCode::SwitchFailed => "upgrade database switch failed",
            UpgradeFilesystemErrorCode::SettingsBackupFailed => "upgrade settings backup failed",
            UpgradeFilesystemErrorCode::IdentityChanged => "upgrade filesystem identity changed",
            UpgradeFilesystemErrorCode::Io => "upgrade filesystem operation failed",
        }
    }

    pub fn message(self) -> (r: &'static str)
        ensures
            r == self.message_spec(),
    {
        match self {
            UpgradeFilesystemErrorCode::UnsafeDataRoot => "upgrade data root is unsafe",
            UpgradeFilesystemErrorCode::UnsafeStateDirectory => "upgrade state directory is unsafe",
            UpgradeFilesystemErrorCode::UnexpectedStateObject => "upgrade state directory contains an unexpected object",
            UpgradeFilesystemErrorCode::InvalidReceipt => "upgrade receipt is invalid",
            UpgradeFilesystemErrorCode::InvalidReceiptReplacement => "upgrade receipt replacement is invalid",
            UpgradeFilesystemErrorCode::InterruptedReceiptWrite => "upgrade receipt write requires recovery",
            UpgradeFilesystemErrorCode::InterruptedSnapshot => "upgrade snapshot requires recovery",
            UpgradeFilesystemErrorCode::InterruptedCandidate => "upgrade migration candidate requires recovery",
            UpgradeFilesystemErrorCode::InterruptedSwitch => "upgrade database switch requires recovery",
            UpgradeFilesystemErrorCode::InterruptedSettingsBackup => "upgrade settings backup requires recovery",
            UpgradeFilesystemErrorCode::OperationAlreadyActive => "another upgrade operation is active",
            UpgradeFilesystemErrorCode::InvalidSnapshotState => "upgrade snapshot state is invalid",
            UpgradeFilesystemErrorCode::InvalidCandidateState => "upgrade migration candidate state is invalid",
            UpgradeFilesystemErrorCode::InvalidCandidateValidation => "upgrade candidate validation evidence is invalid",
            UpgradeFilesystemErrorCode::InvalidSwitchState => "upgrade database switch state is invalid",
            UpgradeFilesystemErrorCode::InvalidSettingsState => "upgrade settings backup state is invalid",
            UpgradeFilesystemErrorCode::InsufficientSpace => "upgrade snapshot has insufficient free space",
            UpgradeFilesystemErrorCode::SnapshotFailed => "upgrade snapshot failed",
            UpgradeFilesystemErrorCode::CandidateMigrationFailed => "upgrade migration candidate failed",
            UpgradeFilesystemErrorCode::SwitchFailed => "upgrade database switch failed",
            UpgradeFilesystemErrorCode::SettingsBackupFailed => "upgrade settings backup failed",
            UpgradeFilesystemErrorCode::IdentityChanged => "upgrade filesystem identity changed",
            UpgradeFilesystemErrorCode::Io => "upgrade filesystem operation failed",
        }
    }
}

/// A failure of the upgrade receipt store, by code.
#[derive(Debug, Clone, Copy, PartialEq, Eq, Structural)]
pub struct UpgradeFilesystemError {
    code: UpgradeFilesystemErrorCode,
}

impl UpgradeFilesystemError {
    pub closed spec fn code_spec(self) -> UpgradeFilesystemErrorCode {
        self.code
    }

    pub fn new(code: UpgradeFilesystemErrorCode) -> (r: Self)
        ensures
            r.code_spec() == code,
    {
        UpgradeFilesystemError { code }
    }

    pub fn code(self) -> (r: UpgradeFilesystemErrorCode)
        ensures
            r == self.code_spec(),
    {
        self.code
    }

    pub proof fn lemma_code_determines(a: Self, b: Self)
        ensures
            a.code_spec() == b.code_spec() <==> a == b,
    {
    }
}


fn error(code: UpgradeFilesystemErrorCode) -> (r: UpgradeFilesystemError)
    ensures
        r.code_spec() == code,
{
    UpgradeFilesystemError::new(code)
}

/// The working copies a snapshot may need at once, as a multiple of its size.
pub const SNAPSHOT_WORKING_COPY_MULTIPLIER: u64 = 3;

/// Free space that must remain after the working copies.
pub const MINIMUM_FREE_SPACE_RESERVE_BYTES: u64 = 67108864;

/// The free space a snapshot of `logical` bytes needs: three working copies and
/// the reserve.
pub open spec fn required_snapshot_space(logical: u64) -> int {
    logical * SNAPSHOT_WORKING_COPY_MULTIPLIER + MINIMUM_FREE_SPACE_RESERVE_BYTES
}

/// The free-space check a snapshot passed.
#[derive(Debug, Clone, Copy, PartialEq, Eq, Structural)]
pub struct UpgradeSnapshotSpaceBudget {
    logical_snapshot_bytes: u64,
    required_available_bytes: u64,
    reported_available_bytes: u64,
}

impl UpgradeSnapshotSpaceBudget {
    pub closed spec fn logical_spec(self) -> u64 {
        self.logical_snapshot_bytes
    }

    pub closed spec fn required_spec(self) -> u64 {
        self.required_available_bytes
    }

    pub closed spec fn reported_spec(self) -> u64 {
        self.reported_available_bytes
    }

    /// Accepts a snapshot of `logical_snapshot_bytes` when the reported free space
    /// covers three working copies and the reserve; a requirement that does not fit
    /// in 64 bits is refused as insufficient space.
    pub fn evaluate(logical_snapshot_bytes: u64, reported_available_bytes: u64) -> (r: Result<
        Self,
        UpgradeFilesystemError,
    >)
        ensures
            r is Ok <==> required_snapshot_space(logical_snapshot_bytes) <= u64::MAX
                && required_snapshot_space(logical_snapshot_bytes) <= reported_available_bytes,
            r matches Ok(b) ==> b.logical_spec() == logical_snapshot_bytes && b.required_spec()
                == required_snapshot_space(logical_snapshot_bytes) && b.reported_spec()
                == reported_available_bytes,
            r matches Err(e) ==> e.code_spec() == UpgradeFilesystemErrorCode::InsufficientSpace,
    {
        let working_bytes = match logical_snapshot_bytes.checked_mul(SNAPSHOT_WORKING_COPY_MULTIPLIER) {
            Some(bytes) => bytes,
            None => return Err(error(UpgradeFilesystemErrorCode::InsufficientSpace)),
        };
        let required_available_bytes = match working_bytes.checked_add(MINIMUM_FREE_SPACE_RESERVE_BYTES) {
            Some(bytes) => bytes,
            None => return Err(error(UpgradeFilesystemErrorCode::InsufficientSpace)),
        };
        if reported_available_bytes < required_available_bytes {
            return Err(error(UpgradeFilesystemErrorCode::InsufficientSpace));
        }
        Ok(UpgradeSnapshotSpaceBudget { logical_snapshot_bytes, required_available_bytes, reported_available_bytes })
    }

    pub fn logical_snapshot_bytes(self) -> (r: u64)
        ensures
            r == self.logical_spec(),
    {
        self.logical_snapshot_bytes
    }

    pub fn required_available_bytes(self) -> (r: u64)
        ensures
            r == self.required_spec(),
    {
        self.required_available_bytes
    }

    pub fn reported_available_bytes(self) -> (r: u64)
        ensures
            r == self.reported_spec(),
    {
        self.reported_available_bytes
    }
}

/// The budget is conservative: whatever it accepts leaves the reserve free after
/// three full working copies, and more free space never turns an acceptance into a
/// refusal.
pub proof fn lemma_space_budget_is_monotone(logical: u64, reported: u64, more: u64)
    requires
        required_snapshot_space(logical) <= u64::MAX,
        required_snapshot_space(logical) <= reported,
        reported <= more,
    ensures
        required_snapshot_space(logical) <= more,
        reported - 3 * logical >= MINIMUM_FREE_SPACE_RESERVE_BYTES,
{
}

/// What a completed snapshot recorded.
#[derive(Debug, Clone, Copy, PartialEq, Eq, Structural)]
pub struct UpgradeSnapshotSummary {
    space_budget: UpgradeSnapshotSpaceBudget,
    snapshot_identity: UpgradeArtifactIdentity,
    source_schema_version: i64,
    snapshot_schema_version: i64,
    page_size_bytes: u64,
    page_count: u64,
}

pub struct UpgradeSnapshotSummaryView {
    pub space_budget: UpgradeSnapshotSpaceBudget,
    pub snapshot_identity: UpgradeArtifactIdentityView,
    pub source_schema_version: i64,
    pub snapshot_schema_version: i64,
    pub page_size_bytes: u64,
    pub page_count: u64,
}

impl View for UpgradeSnapshotSummary {
    type V = UpgradeSnapshotSummaryView;

    closed spec fn view(&self) -> UpgradeSnapshotSummaryView {
        UpgradeSnapshotSummaryView {
            space_budget: self.space_budget,
            snapshot_identity: self.snapshot_identity@,
            source_schema_version: self.source_schema_version,
            snapshot_schema_version: self.snapshot_schema_version,
            page_size_bytes: self.page_size_bytes,
            page_count: self.page_count,
        }
    }
}

impl UpgradeSnapshotSummary {
    pub fn new(
        space_budget: UpgradeSnapshotSpaceBudget,
        snapshot_identity: UpgradeArtifactIdentity,
        source_schema_version: i64,
        snapshot_schema_version: i64,
        page_size_bytes: u64,
        page_count: u64,
    ) -> (r: Self)
        ensures
            r@ == (UpgradeSnapshotSummaryView {
                space_budget,
                snapshot_identity: snapshot_identity@,
                source_schema_version,
                snapshot_schema_version,
                page_size_bytes,
                page_count,
            }),
    {
        UpgradeSnapshotSummary {
            space_budget,
            snapshot_identity,
            source_schema_version,
            snapshot_schema_version,
            page_size_bytes,
            page_count,
        }
    }

    pub fn space_budget(&self) -> (r: UpgradeSnapshotSpaceBudget)
        ensures
            r == self@.space_budget,
    {
        self.space_budget
    }

    pub fn snapshot_identity(&self) -> (r: &UpgradeArtifactIdentity)
        ensures
            r@ == self@.snapshot_identity,
    {
        &self.snapshot_identity
    }

    pub fn source_schema_version(&self) -> (r: i64)
        ensures
            r == self@.source_schema_version,
    {
        self.source_schema_version
    }

    pub fn snapshot_schema_version(&self) -> (r: i64)
        ensures
            r == self@.snapshot_schema_version,
    {
        self.snapshot_schema_version
    }

    pub fn page_size_bytes(&self) -> (r: u64)
        ensures
            r == self@.page_size_bytes,
    {
        self.page_size_bytes
    }

    pub fn page_count(&self) -> (r: u64)
        ensures
            r == self@.page_count,
    {
        self.page_count
    }
}


/// Checks the size estimate of the database about to be snapshot: its schema is
/// the one the receipt names as source, and its pages have a size.
pub fn validate_snapshot_estimate(receipt: &UpgradeReceipt, schema_version: i64, page_size_bytes: u64) -> (r:
    Result<(), UpgradeFilesystemError>)
    ensures
        r is Ok <==> receipt@.source_schema_version == Some(schema_version) && page_size_bytes != 0,
        r matches Err(e) ==> e.code_spec() == UpgradeFilesystemErrorCode::InvalidSnapshotState,
{
    let matches_source = match receipt.source_schema_version() {
        Some(version) => version == schema_version,
        None => false,
    };
    if !matches_source || page_size_bytes == 0 {
        return Err(error(UpgradeFilesystemErrorCode::InvalidSnapshotState));
    }
    Ok(())
}

/// What a migration candidate recorded.
#[derive(Debug, Clone, Copy, PartialEq, Eq, Structural)]
pub struct UpgradeCandidateSummary {
    candidate_identity: UpgradeArtifactIdentity,
    source_schema_version: i64,
    target_schema_version: i64,
    migrated: bool,
}

pub struct UpgradeCandidateSummaryView {
    pub candidate_identity: UpgradeArtifactIdentityView,
    pub source_schema_version: i64,
    pub target_schema_version: i64,
    pub migrated: bool,
}

impl View for UpgradeCandidateSummary {
    type V = UpgradeCandidateSummaryView;

    closed spec fn view(&self) -> UpgradeCandidateSummaryView {
        UpgradeCandidateSummaryView {
            candidate_identity: self.candidate_identity@,
            source_schema_version: self.source_schema_version,
            target_schema_version: self.target_schema_version,
            migrated: self.migrated,
        }
    }
}

impl UpgradeCandidateSummary {
    pub fn new(
        candidate_identity: UpgradeArtifactIdentity,
        source_schema_version: i64,
        target_schema_version: i64,
        migrated: bool,
    ) -> (r: Self)
        ensures
            r@ == (UpgradeCandidateSummaryView {
                candidate_identity: candidate_identity@,
                source_schema_version,
                target_schema_version,
                migrated,
            }),
    {
        UpgradeCandidateSummary { candidate_identity, source_schema_version, target_schema_version, migrated }
    }

    pub fn candidate_identity(&self) -> (r: &UpgradeArtifactIdentity)
        ensures
            r@ == self@.candidate_identity,
    {
        &self.candidate_identity
    }

    pub fn source_schema_version(&self) -> (r: i64)
        ensures
            r == self@.source_schema_version,
    {
        self.source_schema_version
    }

    pub fn target_schema_version(&self) -> (r: i64)
        ensures
            r == self@.target_schema_version,
    {
        self.target_schema_version
    }

    pub fn migrated(&self) -> (r: bool)
        ensures
            r == self@.migrated,
    {
        self.migrated
    }
}

/// What a settings backup recorded.
#[derive(Debug, Clone, Copy, PartialEq, Eq, Structural)]
pub struct UpgradeSettingsBackupSummary {
    backup_identity: UpgradeArtifactIdentity,
}

impl UpgradeSettingsBackupSummary {
    pub closed spec fn identity_spec(self) -> UpgradeArtifactIdentityView {
        self.backup_identity@
    }

    pub fn new(backup_identity: UpgradeArtifactIdentity) -> (r: Self)
        ensures
            r.identity_spec() == backup_identity@,
    {
        UpgradeSettingsBackupSummary { backup_identity }
    }

    pub fn backup_identity(&self) -> (r: &UpgradeArtifactIdentity)
        ensures
            r@ == self.identity_spec(),
    {
        &self.backup_identity
    }

    /// The length of the backed-up settings file.
    pub fn byte_len(&self) -> (r: u64)
        ensures
            r == self.identity_spec().byte_len,
    {
        self.backup_identity.byte_len()
    }
}

#[derive(Debug, Clone, Copy, PartialEq, Eq, Structural)]
pub enum UpgradeSwitchDisposition {
    Switched,
    AlreadySwitched,
}

/// The databases in place after a switch: the candidate active, the source kept
/// as backup.
#[derive(Debug, Clone, Copy, PartialEq, Eq, Structural)]
pub struct UpgradeSwitchSummary {
    disposition: UpgradeSwitchDisposition,
    active_identity: UpgradeArtifactIdentity,
    backup_identity: UpgradeArtifactIdentity,
}

impl UpgradeSwitchSummary {
    pub closed spec fn disposition_spec(self) -> UpgradeSwitchDisposition {
        self.disposition
    }

    pub closed spec fn active_spec(self) -> UpgradeArtifactIdentityView {
        self.active_identity@
    }

    pub closed spec fn backup_spec(self) -> UpgradeArtifactIdentityView {
        self.backup_identity@
    }

    pub fn disposition(&self) -> (r: UpgradeSwitchDisposition)
        ensures
            r == self.disposition_spec(),
    {
        self.disposition
    }

    pub fn active_identity(&self) -> (r: &UpgradeArtifactIdentity)
        ensures
            r@ == self.active_spec(),
    {
        &self.active_identity
    }

    pub fn backup_identity(&self) -> (r: &UpgradeArtifactIdentity)
        ensures
            r@ == self.backup_spec(),
    {
        &self.backup_identity
    }
}

/// The identity the receipt records in `slot`, if any.
pub open spec fn recorded_in(v: UpgradeReceiptView, slot: UpgradeArtifactSlot) -> Option<UpgradeArtifactIdentityView> {
    if v.has(slot) {
        Some(v.artifacts[choose|i: int| 0 <= i < v.artifacts.len() && #[trigger] v.artifacts[i].slot == slot])
    } else {
        None
    }
}

/// Finds the identity the receipt records in `slot`.
pub fn recorded_artifact(receipt: &UpgradeReceipt, slot: UpgradeArtifactSlot) -> (r: Option<&UpgradeArtifactIdentity>)
    requires
        receipt@.wf(),
    ensures
        match r {
            Some(a) => receipt@.has(slot) && a@.slot == slot && recorded_in(receipt@, slot) == Some(a@),
            None => !receipt@.has(slot) && recorded_in(receipt@, slot) is None,
        },
{
    let artifacts = receipt.artifacts();
    let ghost s = receipt@.artifacts;
    proof {
        crate::upgrade_receipt::lemma_wf_sorted(receipt@);
    }
    let mut i: usize = 0;
    while i < artifacts.len()
        invariant
            i <= artifacts@.len(),
            s == artifact_views(artifacts@),
            s == receipt@.artifacts,
            crate::upgrade_receipt::slots_increasing(s),
            forall|k: int| 0 <= k < i ==> #[trigger] s[k].slot != slot,
        decreases artifacts@.len() - i,
    {
        if artifacts[i].slot() == slot {
            proof {
                let j = choose|j: int| 0 <= j < s.len() && #[trigger] s[j].slot == slot;
                if j != i {
                    if j < i {
                        assert(s[j].slot.rank_spec() < s[i as int].slot.rank_spec());
                    } else {
                        assert(s[i as int].slot.rank_spec() < s[j].slot.rank_spec());
                    }
                }
            }
            return Some(&artifacts[i]);
        }
        i = i + 1;
    }
    None
}

/// The switch summary of a receipt once its candidate is active.
pub fn switch_summary(receipt: &UpgradeReceipt, disposition: UpgradeSwitchDisposition) -> (r: Result<
    UpgradeSwitchSummary,
    UpgradeFilesystemError,
>)
    requires
        receipt@.wf(),
    ensures
        r is Ok <==> receipt@.has(UpgradeArtifactSlot::CandidateDatabase) && receipt@.has(
            UpgradeArtifactSlot::BackupDatabase,
        ),
        r matches Ok(summary) ==> summary.disposition_spec() == disposition && Some(summary.active_spec())
            == recorded_in(receipt@, UpgradeArtifactSlot::CandidateDatabase) && Some(summary.backup_spec())
            == recorded_in(receipt@, UpgradeArtifactSlot::BackupDatabase),
        r matches Err(e) ==> e.code_spec() == UpgradeFilesystemErrorCode::InvalidSwitchState,
{
    let active = match recorded_artifact(receipt, UpgradeArtifactSlot::CandidateDatabase) {
        Some(a) => *a,
        None => return Err(error(UpgradeFilesystemErrorCode::InvalidSwitchState)),
    };
    let backup = match recorded_artifact(receipt, UpgradeArtifactSlot::BackupDatabase) {
        Some(a) => *a,
        None => return Err(error(UpgradeFilesystemErrorCode::InvalidSwitchState)),
    };
    Ok(UpgradeSwitchSummary { disposition, active_identity: active, backup_identity: backup })
}


/// The version of the validation evidence the endpoints report.
pub const UPGRADE_VALIDATION_EVIDENCE_VERSION: u32 = 1;

/// What the Manager reports after checking a migrated candidate.
#[derive(Debug, Clone, Copy, PartialEq, Eq, Structural)]
pub struct UpgradeManagerValidationEvidence {
    pub version: u32,
    pub schema_version: i64,
    pub management_queries_checked: u32,
    pub settings_checked: u32,
}

impl UpgradeManagerValidationEvidence {
    /// Evidence of the current version, for the target schema, with each check done once.
    pub open spec fn valid_for(self, target_schema_version: i64) -> bool {
        self.version == UPGRADE_VALIDATION_EVIDENCE_VERSION && self.schema_version == target_schema_version
            && self.management_queries_checked == 1 && self.settings_checked == 1
    }

    pub fn new(version: u32, schema_version: i64, management_queries_checked: u32, settings_checked: u32) -> (r:
        Self)
        ensures
            r == (UpgradeManagerValidationEvidence {
                version,
                schema_version,
                management_queries_checked,
                settings_checked,
            }),
    {
        UpgradeManagerValidationEvidence { version, schema_version, management_queries_checked, settings_checked }
    }

    pub fn is_valid_for(self, target_schema_version: i64) -> (r: bool)
        ensures
            r == self.valid_for(target_schema_version),
    {
        self.version == UPGRADE_VALIDATION_EVIDENCE_VERSION && self.schema_version == target_schema_version
            && self.management_queries_checked == 1 && self.settings_checked == 1
    }
}

/// What the input method reports after checking a migrated candidate.
#[derive(Debug, Clone, Copy, PartialEq, Eq, Structural)]
pub struct UpgradeInputMethodValidationEvidence {
    pub version: u32,
    pub schema_version: i64,
    pub personalized_runtime_checked: u32,
    pub candidate_signals_read: u32,
}

impl UpgradeInputMethodValidationEvidence {
    /// Evidence of the current version, for the target schema, with each check done once.
    pub open spec fn valid_for(self, target_schema_version: i64) -> bool {
        self.version == UPGRADE_VALIDATION_EVIDENCE_VERSION && self.schema_version == target_schema_version
            && self.personalized_runtime_checked == 1 && self.candidate_signals_read == 1
    }

    pub fn new(version: u32, schema_version: i64, personalized_runtime_checked: u32, candidate_signals_read: u32) -> (r:
        Self)
        ensures
            r == (UpgradeInputMethodValidationEvidence {
                version,
                schema_version,
                personalized_runtime_checked,
                candidate_signals_read,
            }),
    {
        UpgradeInputMethodValidationEvidence {
            version,
            schema_version,
            personalized_runtime_checked,
            candidate_signals_read,
        }
    }

    pub fn is_valid_for(self, target_schema_version: i64) -> (r: bool)
        ensures
            r == self.valid_for(target_schema_version),
    {
        self.version == UPGRADE_VALIDATION_EVIDENCE_VERSION && self.schema_version == target_schema_version
            && self.personalized_runtime_checked == 1 && self.candidate_signals_read == 1
    }
}

/// The outcome of validating a migrated candidate with both endpoints.
#[derive(Debug, Clone, Copy, PartialEq, Eq, Structural)]
pub enum UpgradeCandidateValidationReport {
    Passed { manager: UpgradeManagerValidationEvidence, input_method: UpgradeInputMethodValidationEvidence },
    ManagerFailed,
    InputMethodFailed { manager: UpgradeManagerValidationEvidence },
}

impl UpgradeCandidateValidationReport {
    pub fn passed(manager: UpgradeManagerValidationEvidence, input_method: UpgradeInputMethodValidationEvidence) -> (r:
        Self)
        ensures
            r == (UpgradeCandidateValidationReport::Passed { manager, input_method }),
    {
        UpgradeCandidateValidationReport::Passed { manager, input_method }
    }

    pub fn manager_failed() -> (r: Self)
        ensures
            r == UpgradeCandidateValidationReport::ManagerFailed,
    {
        UpgradeCandidateValidationReport::ManagerFailed
    }

    pub fn input_method_failed(manager: UpgradeManagerValidationEvidence) -> (r: Self)
        ensures
            r == (UpgradeCandidateValidationReport::InputMethodFailed { manager }),
    {
        UpgradeCandidateValidationReport::InputMethodFailed { manager }
    }
}

/// The failure a validation report amounts to: the Manager's failure first, and
/// evidence that does not hold counts as a failure of the endpoint that gave it.
pub open spec fn validation_failure_spec(report: UpgradeCandidateValidationReport, target_schema_version: i64) -> Option<
    UpgradeFailureCode,
> {
    match report {
        UpgradeCandidateValidationReport::ManagerFailed => Some(UpgradeFailureCode::ManagerValidationFailed),
        UpgradeCandidateValidationReport::InputMethodFailed { manager } => if manager.valid_for(
            target_schema_version,
        ) {
            Some(UpgradeFailureCode::InputMethodValidationFailed)
        } else {
            Some(UpgradeFailureCode::ManagerValidationFailed)
        },
        UpgradeCandidateValidationReport::Passed { manager, input_method } => if !manager.valid_for(
            target_schema_version,
        ) {
            Some(UpgradeFailureCode::ManagerValidationFailed)
        } else if !input_method.valid_for(target_schema_version) {
            Some(UpgradeFailureCode::InputMethodValidationFailed)
        } else {
            None
        },
    }
}

pub fn validation_failure(report: UpgradeCandidateValidationReport, target_schema_version: i64) -> (r: Option<
    UpgradeFailureCode,
>)
    ensures
        r == validation_failure_spec(report, target_schema_version),
{
    match report {
        UpgradeCandidateValidationReport::ManagerFailed => Some(UpgradeFailureCode::ManagerValidationFailed),
        UpgradeCandidateValidationReport::InputMethodFailed { manager } => {
            if manager.is_valid_for(target_schema_version) {
                Some(UpgradeFailureCode::InputMethodValidationFailed)
            } else {
                Some(UpgradeFailureCode::ManagerValidationFailed)
            }
        },
        UpgradeCandidateValidationReport::Passed { manager, input_method } => {
            if !manager.is_valid_for(target_schema_version) {
                Some(UpgradeFailureCode::ManagerValidationFailed)
            } else if !input_method.is_valid_for(target_schema_version) {
                Some(UpgradeFailureCode::InputMethodValidationFailed)
            } else {
                None
            }
        },
    }
}

/// A candidate is verified only on a report that passed with valid evidence from
/// both endpoints; every other report aborts with a validation failure.
pub proof fn lemma_candidate_verified_only_with_both_evidences(
    report: UpgradeCandidateValidationReport,
    target_schema_version: i64,
)
    ensures
        validation_failure_spec(report, target_schema_version) is None <==> (report matches
            UpgradeCandidateValidationReport::Passed { manager, input_method } && manager.valid_for(
            target_schema_version,
        ) && input_method.valid_for(target_schema_version)),
        validation_failure_spec(report, target_schema_version) matches Some(code) ==> (code
            == UpgradeFailureCode::ManagerValidationFailed || code
            == UpgradeFailureCode::InputMethodValidationFailed),
{
}

#[derive(Debug, Clone, Copy, PartialEq, Eq, Structural)]
pub enum UpgradeCandidateValidationDisposition {
    CandidateVerified,
    AbortedPreserved,
}

/// What recording a candidate validation did to the receipt.
#[derive(Debug, Clone, Copy, PartialEq, Eq, Structural)]
pub struct UpgradeCandidateValidationSummary {
    disposition: UpgradeCandidateValidationDisposition,
    failure_code: Option<UpgradeFailureCode>,
}

impl UpgradeCandidateValidationSummary {
    pub closed spec fn disposition_spec(self) -> UpgradeCandidateValidationDisposition {
        self.disposition
    }

    pub closed spec fn failure_spec(self) -> Option<UpgradeFailureCode> {
        self.failure_code
    }

    /// The summary for a validation failure, or its absence.
    pub fn for_failure(failure_code: Option<UpgradeFailureCode>) -> (r: Self)
        ensures
            r.failure_spec() == failure_code,
            r.disposition_spec() == (if failure_code is Some {
                UpgradeCandidateValidationDisposition::AbortedPreserved
            } else {
                UpgradeCandidateValidationDisposition::CandidateVerified
            }),
    {
        let disposition = match failure_code {
            Some(_) => UpgradeCandidateValidationDisposition::AbortedPreserved,
            None => UpgradeCandidateValidationDisposition::CandidateVerified,
        };
        UpgradeCandidateValidationSummary { disposition, failure_code }
    }

    pub fn disposition(self) -> (r: UpgradeCandidateValidationDisposition)
        ensures
            r == self.disposition_spec(),
    {
        self.disposition
    }

    pub fn failure_code(self) -> (r: Option<UpgradeFailureCode>)
        ensures
            r == self.failure_spec(),
    {
        self.failure_code
    }
}

/// Applies a validation outcome to a receipt in `CandidateMigrated`: a failure
/// aborts with the original data preserved, success verifies the candidate. A
/// receipt that refuses the step is left unchanged.
pub fn apply_candidate_validation(receipt: &mut UpgradeReceipt, failure_code: Option<UpgradeFailureCode>) -> (r:
    Result<UpgradeCandidateValidationSummary, UpgradeFilesystemError>)
    requires
        old(receipt)@.wf(),
    ensures
        final(receipt)@.wf(),
        match r {
            Ok(summary) => summary.failure_spec() == failure_code && match failure_code {
                Some(code) => final(receipt)@ == old(receipt)@.aborted(code, false)
                    && summary.disposition_spec() == UpgradeCandidateValidationDisposition::AbortedPreserved,
                None => final(receipt)@ == old(receipt)@.with_state(UpgradeState::CandidateVerified)
                    && summary.disposition_spec() == UpgradeCandidateValidationDisposition::CandidateVerified,
            } && UpgradeReceiptView::can_replace(final(receipt)@, old(receipt)@),
            Err(e) => e.code_spec() == UpgradeFilesystemErrorCode::InvalidCandidateValidation && final(receipt)@
                == old(receipt)@,
        },
        r is Ok <==> match failure_code {
            Some(code) => old(receipt)@.abort_result(code, false) is Ok,
            None => old(receipt)@.advance_result(UpgradeState::CandidateVerified) is Ok,
        },
{
    let outcome = match failure_code {
        Some(code) => receipt.abort_preserved(code, false),
        None => receipt.advance(UpgradeState::CandidateVerified),
    };
    match outcome {
        Ok(()) => Ok(UpgradeCandidateValidationSummary::for_failure(failure_code)),
        Err(_) => Err(error(UpgradeFilesystemErrorCode::InvalidCandidateValidation)),
    }
}

/// The version of the evidence that a rollback restored a working source.
pub const UPGRADE_ROLLBACK_VALIDATION_EVIDENCE_VERSION: u32 = 1;

/// What the source release reports after opening the restored database.
#[derive(Debug, Clone, Copy, PartialEq, Eq, Structural)]
pub struct UpgradeRollbackValidationEvidence {
    pub version: u32,
    pub source_schema_version: i64,
    pub source_release_opened: u32,
    pub source_database_checked: u32,
}

impl UpgradeRollbackValidationEvidence {
    /// Evidence of the current version, for the source schema, with each check done once.
    pub open spec fn valid_for(self, source_schema_version: i64) -> bool {
        self.version == UPGRADE_ROLLBACK_VALIDATION_EVIDENCE_VERSION && self.source_schema_version
            == source_schema_version && self.source_release_opened == 1 && self.source_database_checked == 1
    }

    pub fn new(
        version: u32,
        source_schema_version: i64,
        source_release_opened: u32,
        source_database_checked: u32,
    ) -> (r: Self)
        ensures
            r == (UpgradeRollbackValidationEvidence {
                version,
                source_schema_version,
                source_release_opened,
                source_database_checked,
            }),
    {
        UpgradeRollbackValidationEvidence {
            version,
            source_schema_version,
            source_release_opened,
            source_database_checked,
        }
    }

    pub fn is_valid_for(self, source_schema_version: i64) -> (r: bool)
        ensures
            r == self.valid_for(source_schema_version),
    {
        self.version == UPGRADE_ROLLBACK_VALIDATION_EVIDENCE_VERSION && self.source_schema_version
            == source_schema_version && self.source_release_opened == 1 && self.source_database_checked == 1
    }
}

#[derive(Debug, Clone, Copy, PartialEq, Eq, Structural)]
pub enum UpgradeRollbackRestoreDisposition {
    RestoredAwaitingValidation,
    AlreadyRestoredAwaitingValidation,
}

#[derive(Debug, Clone, Copy, PartialEq, Eq, Structural)]
pub struct UpgradeRollbackRestoreSummary {
    pub disposition: UpgradeRollbackRestoreDisposition,
}

impl UpgradeRollbackRestoreSummary {
    pub fn disposition(self) -> (r: UpgradeRollbackRestoreDisposition)
        ensures
            r == self.disposition,
    {
        self.disposition
    }
}

#[derive(Debug, Clone, Copy, PartialEq, Eq, Structural)]
pub enum UpgradeRollbackValidationDisposition {
    RolledBack,
    AlreadyRolledBack,
}

#[derive(Debug, Clone, Copy, PartialEq, Eq, Structural)]
pub struct UpgradeRollbackValidationSummary {
    pub disposition: UpgradeRollbackValidationDisposition,
}

impl UpgradeRollbackValidationSummary {
    pub fn disposition(self) -> (r: UpgradeRollbackValidationDisposition)
        ensures
            r == self.disposition,
    {
        self.disposition
    }
}

/// Records a validated rollback: an already rolled-back receipt is reported as
/// such; a receipt awaiting rollback is marked rolled back only with evidence for
/// its source schema. Anything else is refused and leaves the receipt unchanged.
pub fn apply_rollback_validation(receipt: &mut UpgradeReceipt, evidence: UpgradeRollbackValidationEvidence) -> (r:
    Result<UpgradeRollbackValidationSummary, UpgradeFilesystemError>)
    requires
        old(receipt)@.wf(),
    ensures
        final(receipt)@.wf(),
        r matches Ok(summary) ==> (summary.disposition == UpgradeRollbackValidationDisposition::AlreadyRolledBack
            <==> old(receipt)@.state == UpgradeState::RolledBack),
        r matches Ok(summary) && summary.disposition == UpgradeRollbackValidationDisposition::RolledBack ==> final(receipt)@
            == old(receipt)@.rolled_back() && UpgradeReceiptView::can_replace(final(receipt)@, old(receipt)@),
        r matches Ok(summary) && summary.disposition == UpgradeRollbackValidationDisposition::AlreadyRolledBack
            ==> final(receipt)@ == old(receipt)@,
        r is Err ==> final(receipt)@ == old(receipt)@,
        r matches Err(e) ==> e.code_spec() == UpgradeFilesystemErrorCode::InvalidSwitchState,
        r is Ok <==> (old(receipt)@.state == UpgradeState::RolledBack || (old(receipt)@.state
            == UpgradeState::RollbackRequired && (old(receipt)@.source_schema_version matches Some(v)
            && evidence.valid_for(v)) && old(receipt)@.rolled_back_result() is Ok)),
{
    if receipt.state() == UpgradeState::RolledBack {
        return Ok(UpgradeRollbackValidationSummary { disposition: UpgradeRollbackValidationDisposition::AlreadyRolledBack });
    }
    if receipt.state() != UpgradeState::RollbackRequired {
        return Err(error(UpgradeFilesystemErrorCode::InvalidSwitchState));
    }
    let source_schema_version = match receipt.source_schema_version() {
        Some(v) => v,
        None => return Err(error(UpgradeFilesystemErrorCode::InvalidSwitchState)),
    };
    if !evidence.is_valid_for(source_schema_version) {
        return Err(error(UpgradeFilesystemErrorCode::InvalidSwitchState));
    }
    match receipt.mark_rolled_back() {
        Ok(()) => Ok(UpgradeRollbackValidationSummary { disposition: UpgradeRollbackValidationDisposition::RolledBack }),
        Err(_) => Err(error(UpgradeFilesystemErrorCode::InvalidSwitchState)),
    }
}


/// The settings backup is complete: the receipt records a settings backup exactly
/// when it records source settings.
pub fn settings_backup_is_ready(receipt: &UpgradeReceipt) -> (r: bool)
    requires
        receipt@.wf(),
    ensures
        r == (receipt@.has(UpgradeArtifactSlot::SourceSettings) == receipt@.has(UpgradeArtifactSlot::BackupSettings)),
{
    let source_present = recorded_artifact(receipt, UpgradeArtifactSlot::SourceSettings).is_some();
    let backup_present = recorded_artifact(receipt, UpgradeArtifactSlot::BackupSettings).is_some();
    source_present == backup_present
}

/// A candidate found after an interruption may be resumed when the snapshot has
/// the source schema and the candidate has the target schema in its current form;
/// the result is the source schema.
pub fn check_resumed_candidate(
    receipt: &UpgradeReceipt,
    snapshot_schema_version: i64,
    candidate_schema_version: i64,
    candidate_is_current: bool,
) -> (r: Result<i64, UpgradeFilesystemError>)
    ensures
        r is Ok <==> (receipt@.source_schema_version == Some(snapshot_schema_version) && candidate_schema_version
            == receipt@.target_schema_version && candidate_is_current),
        r matches Ok(v) ==> Some(v) == receipt@.source_schema_version,
        r matches Err(e) ==> e.code_spec() == UpgradeFilesystemErrorCode::InvalidCandidateState,
{
    let source_schema_version = match receipt.source_schema_version() {
        Some(v) => v,
        None => return Err(error(UpgradeFilesystemErrorCode::InvalidCandidateState)),
    };
    if snapshot_schema_version != source_schema_version || candidate_schema_version
        != receipt.target_schema_version() || !candidate_is_current {
        return Err(error(UpgradeFilesystemErrorCode::InvalidCandidateState));
    }
    Ok(source_schema_version)
}

/// The summary of a candidate migrated from `source_schema_version`: it was
/// migrated when the schemas differ.
pub fn candidate_summary(
    candidate_identity: UpgradeArtifactIdentity,
    source_schema_version: i64,
    candidate_schema_version: i64,
) -> (r: UpgradeCandidateSummary)
    ensures
        r@ == (UpgradeCandidateSummaryView {
            candidate_identity: candidate_identity@,
            source_schema_version,
            target_schema_version: candidate_schema_version,
            migrated: source_schema_version != candidate_schema_version,
        }),
{
    UpgradeCandidateSummary::new(
        candidate_identity,
        source_schema_version,
        candidate_schema_version,
        source_schema_version != candidate_schema_version,
    )
}

} // verus!

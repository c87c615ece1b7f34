//! The data upgrade receipt: one migration of the user database to a new
//! release, its state machine and the artifact identities each state requires.

use vstd::prelude::*;

use crate::text::{is_lower_hex_of_len, is_valid_version_syntax, lower_hex_of_len, same_text, valid_version_syntax};

verus! {

/// Format tag of every upgrade receipt.
pub const UPGRADE_RECEIPT_FORMAT: &'static str = "radishlex-product-upgrade-receipt-v1";

/// Largest accepted encoded upgrade receipt, newline included.
pub const MAX_UPGRADE_RECEIPT_BYTES: usize = 65536;

#[derive(Debug, Clone, Copy, PartialEq, Eq, Structural)]
pub enum UpgradeReceiptField {
    Release,
    SourceRelease,
    TargetRelease,
    Artifacts,
    State,
    ReceiptFormat,
    OperationId,
    PreviousOperationId,
    SourceSchemaVersion,
    TargetSchemaVersion,
    FailureCode,
    RollbackRequired,
    RolledBack,
    Receipt,
}

impl UpgradeReceiptField {
    pub open spec fn name_spec(self) -> &'static str {
        match self {
            UpgradeReceiptField::Release => "release",
            UpgradeReceiptField::SourceRelease => "source_release",
            UpgradeReceiptField::TargetRelease => "target_release",
            UpgradeReceiptField::Artifacts => "artifacts",
            UpgradeReceiptField::State => "state",
            UpgradeReceiptField::ReceiptFormat => "receipt_format",
            UpgradeReceiptField::OperationId => "operation_id",
            UpgradeReceiptField::PreviousOperationId => "previous_operation_id",
            UpgradeReceiptField::SourceSchemaVersion => "source_schema_version",
            UpgradeReceiptField::TargetSchemaVersion => "target_schema_version",
            UpgradeReceiptField::FailureCode => "failure_code",
            UpgradeReceiptField::RollbackRequired => "rollback_required",
            UpgradeReceiptField::RolledBack => "rolled_back",
            UpgradeReceiptField::Receipt => "receipt",
        }
    }

    pub fn name(self) -> (r: &'static str)
        ensures
            r == self.name_spec(),
    {
        match self {
            UpgradeReceiptField::Release => "release",
            UpgradeReceiptField::SourceRelease => "source_release",
            UpgradeReceiptField::TargetRelease => "target_release",
            UpgradeReceiptField::Artifacts => "artifacts",
            UpgradeReceiptField::State => "state",
            UpgradeReceiptField::ReceiptFormat => "receipt_format",
            UpgradeReceiptField::OperationId => "operation_id",
            UpgradeReceiptField::PreviousOperationId => "previous_operation_id",
            UpgradeReceiptField::SourceSchemaVersion => "source_schema_version",
            UpgradeReceiptField::TargetSchemaVersion => "target_schema_version",
            UpgradeReceiptField::FailureCode => "failure_code",
            UpgradeReceiptField::RollbackRequired => "rollback_required",
            UpgradeReceiptField::RolledBack => "rolled_back",
            UpgradeReceiptField::Receipt => "receipt",
        }
    }
}

#[derive(Debug, Clone, Copy, PartialEq, Eq, Structural)]
pub enum UpgradeReceiptReason {
    VersionNotNumeric,
    BuildNumberZero,
    InodeZero,
    LinkCountInvalid,
    ModeMustBe0700,
    ModeMustBe0600,
    DirectoryHasLength,
    SlotAlreadyRecorded,
    TerminalCannotRecord,
    TransitionNotAllowed,
    AbortRequiresPreSwitch,
    RollbackRequiresSwitch,
    FinishRequiresRollbackRequired,
    UnsupportedFormat,
    OperationIdNotHex,
    PreviousOperationSame,
    TargetReleaseSame,
    SourceSchemaNegative,
    TargetSchemaNotPositive,
    ArtifactsEmpty,
    ArtifactsNotCanonical,
    DataRootMissing,
    SourceDatabaseSchemaDisagree,
    SettingsDisagree,
    SnapshotRequired,
    CandidateRequired,
    BackupRequired,
    AbortedInconsistent,
    RollbackRequiredInconsistent,
    RolledBackInconsistent,
    NormalStateHasFailure,
    SizeOutOfRange,
    MissingNewline,
    NotCanonical,
}

impl UpgradeReceiptReason {
    pub open spec fn message_spec(self) -> &'static str {
        match self {
            UpgradeReceiptReason::VersionNotNumeric => "product version must use numeric major.minor.patch",
            UpgradeReceiptReason::BuildNumberZero => "build number must be positive",
            UpgradeReceiptReason::InodeZero => "inode must be positive",
            UpgradeReceiptReason::LinkCountInvalid => "file artifacts require one link and directory link count must be positive",
            UpgradeReceiptReason::ModeMustBe0700 => "artifact mode must be 0700",
            UpgradeReceiptReason::ModeMustBe0600 => "artifact mode must be 0600",
            UpgradeReceiptReason::DirectoryHasLength => "directory identity must not record content length",
            UpgradeReceiptReason::SlotAlreadyRecorded => "artifact slot is already recorded",
            UpgradeReceiptReason::TerminalCannotRecord => "terminal receipt cannot record another artifact",
            UpgradeReceiptReason::TransitionNotAllowed => "state transition is not allowed",
            UpgradeReceiptReason::AbortRequiresPreSwitch => "only a pre-switch operation can abort with original data preserved",
            UpgradeReceiptReason::RollbackRequiresSwitch => "rollback can only be required after the candidate was switched and before completion",
            UpgradeReceiptReason::FinishRequiresRollbackRequired => "only a rollback-required operation can finish rollback",
            UpgradeReceiptReason::UnsupportedFormat => "unsupported receipt format",
            UpgradeReceiptReason::OperationIdNotHex => "operation ID must be 32 lowercase hexadecimal characters",
            UpgradeReceiptReason::PreviousOperationSame => "previous operation must differ from current operation",
            UpgradeReceiptReason::TargetReleaseSame => "target release must differ from source release",
            UpgradeReceiptReason::SourceSchemaNegative => "source schema version must be non-negative",
            UpgradeReceiptReason::TargetSchemaNotPositive => "target schema version must be positive",
            UpgradeReceiptReason::ArtifactsEmpty => "at least the fixed data root identity is required",
            UpgradeReceiptReason::ArtifactsNotCanonical => "artifact slots must use canonical order",
            UpgradeReceiptReason::DataRootMissing => "fixed data root identity is required",
            UpgradeReceiptReason::SourceDatabaseSchemaDisagree => "source database identity and schema presence must agree",
            UpgradeReceiptReason::SettingsDisagree => "settings source and backup identities must agree after snapshot",
            UpgradeReceiptReason::SnapshotRequired => "snapshot identity is required for this state",
            UpgradeReceiptReason::CandidateRequired => "candidate identity is required for this state",
            UpgradeReceiptReason::BackupRequired => "backup identity is required for this state",
            UpgradeReceiptReason::AbortedInconsistent => "aborted receipt requires a failure and pre-switch stage",
            UpgradeReceiptReason::RollbackRequiredInconsistent => "rollback-required receipt needs a failure and recovery gate",
            UpgradeReceiptReason::RolledBackInconsistent => "rolled-back receipt must retain failure and clear recovery gate",
            UpgradeReceiptReason::NormalStateHasFailure => "normal state cannot carry failure or manual recovery fields",
            UpgradeReceiptReason::SizeOutOfRange => "receipt size is outside the accepted range",
            UpgradeReceiptReason::MissingNewline => "receipt must end with one newline",
            UpgradeReceiptReason::NotCanonical => "receipt is not in canonical encoding",
        }
    }

    pub fn message(self) -> (r: &'static str)
        ensures
            r == self.message_spec(),
    {
        match self {
            UpgradeReceiptReason::VersionNotNumeric => "product version must use numeric major.minor.patch",
            UpgradeReceiptReason::BuildNumberZero => "build number must be positive",
            UpgradeReceiptReason::InodeZero => "inode must be positive",
            UpgradeReceiptReason::LinkCountInvalid => "file artifacts require one link and directory link count must be positive",
            UpgradeReceiptReason::ModeMustBe0700 => "artifact mode must be 0700",
            UpgradeReceiptReason::ModeMustBe0600 => "artifact mode must be 0600",
            UpgradeReceiptReason::DirectoryHasLength => "directory identity must not record content length",
            UpgradeReceiptReason::SlotAlreadyRecorded => "artifact slot is already recorded",
            UpgradeReceiptReason::TerminalCannotRecord => "terminal receipt cannot record another artifact",
            UpgradeReceiptReason::TransitionNotAllowed => "state transition is not allowed",
            UpgradeReceiptReason::AbortRequiresPreSwitch => "only a pre-switch operation can abort with original data preserved",
            UpgradeReceiptReason::RollbackRequiresSwitch => "rollback can only be required after the candidate was switched and before completion",
            UpgradeReceiptReason::FinishRequiresRollbackRequired => "only a rollback-required operation can finish rollback",
            UpgradeReceiptReason::UnsupportedFormat => "unsupported receipt format",
            UpgradeReceiptReason::OperationIdNotHex => "operation ID must be 32 lowercase hexadecimal characters",
            UpgradeReceiptReason::PreviousOperationSame => "previous operation must differ from current operation",
            UpgradeReceiptReason::TargetReleaseSame => "target release must differ from source release",
            UpgradeReceiptReason::SourceSchemaNegative => "source schema version must be non-negative",
            UpgradeReceiptReason::TargetSchemaNotPositive => "target schema version must be positive",
            UpgradeReceiptReason::ArtifactsEmpty => "at least the fixed data root identity is required",
            UpgradeReceiptReason::ArtifactsNotCanonical => "artifact slots must use canonical order",
            UpgradeReceiptReason::DataRootMissing => "fixed data root identity is required",
            UpgradeReceiptReason::SourceDatabaseSchemaDisagree => "source database identity and schema presence must agree",
            UpgradeReceiptReason::SettingsDisagree => "settings source and backup identities must agree after snapshot",
            UpgradeReceiptReason::SnapshotRequired => "snapshot identity is required for this state",
            UpgradeReceiptReason::CandidateRequired => "candidate identity is required for this state",
            UpgradeReceiptReason::BackupRequired => "backup identity is required for this state",
            UpgradeReceiptReason::AbortedInconsistent => "aborted receipt requires a failure and pre-switch stage",
            UpgradeReceiptReason::RollbackRequiredInconsistent => "rollback-required receipt needs a failure and recovery gate",
            UpgradeReceiptReason::RolledBackInconsistent => "rolled-back receipt must retain failure and clear recovery gate",
            UpgradeReceiptReason::NormalStateHasFailure => "normal state cannot carry failure or manual recovery fields",
            UpgradeReceiptReason::SizeOutOfRange => "receipt size is outside the accepted range",
            UpgradeReceiptReason::MissingNewline => "receipt must end with one newline",
            UpgradeReceiptReason::NotCanonical => "receipt is not in canonical encoding",
        }
    }
}

/// A refused upgrade receipt value, or receipt bytes that are not JSON.
#[derive(Debug, Clone, Copy, PartialEq, Eq, Structural)]
pub enum UpgradeReceiptError {
    Invalid { field: UpgradeReceiptField, reason: UpgradeReceiptReason },
    MalformedJson,
}

pub open spec fn upgrade_error(field: UpgradeReceiptField, reason: UpgradeReceiptReason) -> UpgradeReceiptError {
    UpgradeReceiptError::Invalid { field, reason }
}

impl UpgradeReceiptError {
    pub fn invalid(field: UpgradeReceiptField, reason: UpgradeReceiptReason) -> (r: Self)
        ensures
            r == upgrade_error(field, reason),
    {
        UpgradeReceiptError::Invalid { field, reason }
    }
}

#[derive(Debug, Clone, Copy, PartialEq, Eq, Structural)]
pub enum DataLayout {
    ApplicationSupportV1,
}

#[derive(Debug, Clone, Copy, PartialEq, Eq, PartialOrd, Ord, Structural)]
pub enum UpgradeArtifactSlot {
    DataRoot,
    SourceDatabase,
    SnapshotDatabase,
    CandidateDatabase,
    BackupDatabase,
    SourceSettings,
    BackupSettings,
    RimeRoot,
}

impl UpgradeArtifactSlot {
    pub open spec fn rank_spec(self) -> u8 {
        match self {
            UpgradeArtifactSlot::DataRoot => 0,
            UpgradeArtifactSlot::SourceDatabase => 1,
            UpgradeArtifactSlot::SnapshotDatabase => 2,
            UpgradeArtifactSlot::CandidateDatabase => 3,
            UpgradeArtifactSlot::BackupDatabase => 4,
            UpgradeArtifactSlot::SourceSettings => 5,
            UpgradeArtifactSlot::BackupSettings => 6,
            UpgradeArtifactSlot::RimeRoot => 7,
        }
    }

    /// Slots that name a directory rather than a file.
    pub open spec fn directory_spec(self) -> bool {
        self is DataRoot || self is RimeRoot
    }

    pub fn rank(self) -> (r: u8)
        ensures
            r == self.rank_spec(),
    {
        match self {
            UpgradeArtifactSlot::DataRoot => 0,
            UpgradeArtifactSlot::SourceDatabase => 1,
            UpgradeArtifactSlot::SnapshotDatabase => 2,
            UpgradeArtifactSlot::CandidateDatabase => 3,
            UpgradeArtifactSlot::BackupDatabase => 4,
            UpgradeArtifactSlot::SourceSettings => 5,
            UpgradeArtifactSlot::BackupSettings => 6,
            UpgradeArtifactSlot::RimeRoot => 7,
        }
    }

    pub fn expects_directory(self) -> (r: bool)
        ensures
            r == self.directory_spec(),
    {
        matches!(self, UpgradeArtifactSlot::DataRoot | UpgradeArtifactSlot::RimeRoot)
    }
}

#[derive(Debug, Clone, Copy, PartialEq, Eq, Structural)]
pub enum UpgradeState {
    Preflighted,
    Quiesced,
    SnapshotReady,
    CandidateMigrated,
    CandidateVerified,
    SwitchPrepared,
    Switched,
    PostSwitchVerified,
    Completed,
    AbortedPreserved,
    RollbackRequired,
    RolledBack,
}

impl UpgradeState {
    /// A state in which the active database still is the original one.
    pub open spec fn pre_switch(self) -> bool {
        self is Preflighted || self is Quiesced || self is SnapshotReady || self is CandidateMigrated
            || self is CandidateVerified || self is SwitchPrepared
    }

    pub open spec fn terminal(self) -> bool {
        self is Completed || self is AbortedPreserved || self is RolledBack
    }

    /// Position on the normal path; failure states have none.
    pub open spec fn normal_rank(self) -> Option<u8> {
        match self {
            UpgradeState::Preflighted => Some(0u8),
            UpgradeState::Quiesced => Some(1u8),
            UpgradeState::SnapshotReady => Some(2u8),
            UpgradeState::CandidateMigrated => Some(3u8),
            UpgradeState::CandidateVerified => Some(4u8),
            UpgradeState::SwitchPrepared => Some(5u8),
            UpgradeState::Switched => Some(6u8),
            UpgradeState::PostSwitchVerified => Some(7u8),
            UpgradeState::Completed => Some(8u8),
            _ => None,
        }
    }

    pub fn is_pre_switch(self) -> (r: bool)
        ensures
            r == self.pre_switch(),
    {
        matches!(
            self,
            UpgradeState::Preflighted | UpgradeState::Quiesced | UpgradeState::SnapshotReady
                | UpgradeState::CandidateMigrated | UpgradeState::CandidateVerified
                | UpgradeState::SwitchPrepared
        )
    }

    pub fn is_terminal(self) -> (r: bool)
        ensures
            r == self.terminal(),
    {
        matches!(self, UpgradeState::Completed | UpgradeState::AbortedPreserved | UpgradeState::RolledBack)
    }

    fn rank(self) -> (r: Option<u8>)
        ensures
            r == self.normal_rank(),
    {
        match self {
            UpgradeState::Preflighted => Some(0),
            UpgradeState::Quiesced => Some(1),
            UpgradeState::SnapshotReady => Some(2),
            UpgradeState::CandidateMigrated => Some(3),
            UpgradeState::CandidateVerified => Some(4),
            UpgradeState::SwitchPrepared => Some(5),
            UpgradeState::Switched => Some(6),
            UpgradeState::PostSwitchVerified => Some(7),
            UpgradeState::Completed => Some(8),
            _ => None,
        }
    }
}

/// `actual` lies on the normal path at or after `required`.
pub open spec fn state_at_least_spec(actual: UpgradeState, required: UpgradeState) -> bool {
    actual.normal_rank() is Some && required.normal_rank() is Some && actual.normal_rank()->0
        >= required.normal_rank()->0
}

pub fn state_at_least(actual: UpgradeState, required: UpgradeState) -> (r: bool)
    ensures
        r == state_at_least_spec(actual, required),
{
    match (actual.rank(), required.rank()) {
        (Some(a), Some(b)) => a >= b,
        _ => false,
    }
}

/// The one next state of the normal path.
pub open spec fn normal_successor_spec(current: UpgradeState, next: UpgradeState) -> bool {
    match (current, next) {
        (UpgradeState::Preflighted, UpgradeState::Quiesced) => true,
        (UpgradeState::Quiesced, UpgradeState::SnapshotReady) => true,
        (UpgradeState::SnapshotReady, UpgradeState::CandidateMigrated) => true,
        (UpgradeState::CandidateMigrated, UpgradeState::CandidateVerified) => true,
        (UpgradeState::CandidateVerified, UpgradeState::SwitchPrepared) => true,
        (UpgradeState::SwitchPrepared, UpgradeState::Switched) => true,
        (UpgradeState::Switched, UpgradeState::PostSwitchVerified) => true,
        (UpgradeState::PostSwitchVerified, UpgradeState::Completed) => true,
        _ => false,
    }
}

pub fn is_normal_successor(current: UpgradeState, next: UpgradeState) -> (r: bool)
    ensures
        r == normal_successor_spec(current, next),
{
    match (current, next) {
        (UpgradeState::Preflighted, UpgradeState::Quiesced) => true,
        (UpgradeState::Quiesced, UpgradeState::SnapshotReady) => true,
        (UpgradeState::SnapshotReady, UpgradeState::CandidateMigrated) => true,
        (UpgradeState::CandidateMigrated, UpgradeState::CandidateVerified) => true,
        (UpgradeState::CandidateVerified, UpgradeState::SwitchPrepared) => true,
        (UpgradeState::SwitchPrepared, UpgradeState::Switched) => true,
        (UpgradeState::Switched, UpgradeState::PostSwitchVerified) => true,
        (UpgradeState::PostSwitchVerified, UpgradeState::Completed) => true,
        _ => false,
    }
}

#[derive(Debug, Clone, Copy, PartialEq, Eq, Structural)]
pub enum UpgradeFailureCode {
    UnsupportedReceipt,
    ReceiptInconsistent,
    OperationAlreadyActive,
    UnsafeDataRoot,
    UnexpectedDataObject,
    IdentityChanged,
    ProcessNotQuiescent,
    DatabaseBusy,
    DatabaseCorrupt,
    FutureSchema,
    MigrationFailed,
    InsufficientSpace,
    PermissionDenied,
    SnapshotFailed,
    ManagerValidationFailed,
    InputMethodValidationFailed,
    SwitchFailed,
    PostSwitchValidationFailed,
    RollbackFailed,
}

pub struct ProductReleaseView {
    pub product_version: Seq<char>,
    pub build_number: u64,
}

impl ProductReleaseView {
    pub open spec fn check(self, field: UpgradeReceiptField) -> Result<(), UpgradeReceiptError> {
        if !valid_version_syntax(self.product_version) {
            Err(upgrade_error(field, UpgradeReceiptReason::VersionNotNumeric))
        } else if self.build_number == 0 {
            Err(upgrade_error(field, UpgradeReceiptReason::BuildNumberZero))
        } else {
            Ok(())
        }
    }
}

/// A product release named in a data upgrade receipt.
#[derive(Debug, Clone, PartialEq, Eq)]
pub struct ProductRelease {
    product_version: String,
    build_number: u64,
}

impl View for ProductRelease {
    type V = ProductReleaseView;

    closed spec fn view(&self) -> ProductReleaseView {
        ProductReleaseView { product_version: self.product_version@, build_number: self.build_number }
    }
}

impl ProductRelease {
    /// A release with a `major.minor.patch` version and a positive build number.
    pub fn new(product_version: String, build_number: u64) -> (r: Result<Self, UpgradeReceiptError>)
        ensures
            ({
                let v = ProductReleaseView { product_version: product_version@, build_number };
                match r {
                    Ok(release) => release@ == v && v.check(UpgradeReceiptField::Release) is Ok,
                    Err(e) => v.check(UpgradeReceiptField::Release) == Err::<(), UpgradeReceiptError>(e),
                }
            }),
    {
        let release = ProductRelease { product_version, build_number };
        match release.validate(UpgradeReceiptField::Release) {
            Ok(()) => Ok(release),
            Err(e) => Err(e),
        }
    }

    pub fn product_version(&self) -> (r: &str)
        ensures
            r@ == self@.product_version,
    {
        self.product_version.as_str()
    }

    pub fn build_number(&self) -> (r: u64)
        ensures
            r == self@.build_number,
    {
        self.build_number
    }

    pub fn validate(&self, field: UpgradeReceiptField) -> (r: Result<(), UpgradeReceiptError>)
        ensures
            r == self@.check(field),
    {
        if !is_valid_version_syntax(self.product_version.as_str()) {
            return Err(UpgradeReceiptError::invalid(field, UpgradeReceiptReason::VersionNotNumeric));
        }
        if self.build_number == 0 {
            return Err(UpgradeReceiptError::invalid(field, UpgradeReceiptReason::BuildNumberZero));
        }
        Ok(())
    }

    pub fn same_as(&self, other: &ProductRelease) -> (r: bool)
        ensures
            r == (self@ == other@),
    {
        self.build_number == other.build_number && self.product_version == other.product_version
    }
}

/// The filesystem identity of a file or directory the upgrade depends on.
#[derive(Debug, Clone, Copy, PartialEq, Eq, Structural)]
pub struct UpgradeArtifactIdentity {
    slot: UpgradeArtifactSlot,
    device_id: u64,
    inode: u64,
    owner_id: u32,
    mode: u32,
    link_count: u64,
    byte_len: u64,
}

pub struct UpgradeArtifactIdentityView {
    pub slot: UpgradeArtifactSlot,
    pub device_id: u64,
    pub inode: u64,
    pub owner_id: u32,
    pub mode: u32,
    pub link_count: u64,
    pub byte_len: u64,
}

impl View for UpgradeArtifactIdentity {
    type V = UpgradeArtifactIdentityView;

    closed spec fn view(&self) -> UpgradeArtifactIdentityView {
        UpgradeArtifactIdentityView {
            slot: self.slot,
            device_id: self.device_id,
            inode: self.inode,
            owner_id: self.owner_id,
            mode: self.mode,
            link_count: self.link_count,
            byte_len: self.byte_len,
        }
    }
}

impl UpgradeArtifactIdentityView {
    /// A private identity: positive inode, one link for files and a positive link
    /// count for directories, mode `0700` for directories and `0600` for files, and
    /// no content length for directories.
    pub open spec fn check(self) -> Result<(), UpgradeReceiptError> {
        if self.inode == 0 {
            Err(upgrade_error(UpgradeReceiptField::Artifacts, UpgradeReceiptReason::InodeZero))
        } else if self.link_count == 0 || (!self.slot.directory_spec() && self.link_count != 1) {
            Err(upgrade_error(UpgradeReceiptField::Artifacts, UpgradeReceiptReason::LinkCountInvalid))
        } else if self.slot.directory_spec() && self.mode != 0o700 {
            Err(upgrade_error(UpgradeReceiptField::Artifacts, UpgradeReceiptReason::ModeMustBe0700))
        } else if !self.slot.directory_spec() && self.mode != 0o600 {
            Err(upgrade_error(UpgradeReceiptField::Artifacts, UpgradeReceiptReason::ModeMustBe0600))
        } else if self.slot.directory_spec() && self.byte_len != 0 {
            Err(upgrade_error(UpgradeReceiptField::Artifacts, UpgradeReceiptReason::DirectoryHasLength))
        } else {
            Ok(())
        }
    }
}

impl UpgradeArtifactIdentity {
    pub proof fn lemma_view_determines(a: Self, b: Self)
        ensures
            a@ == b@ <==> a == b,
    {
    }

    /// A private file: mode `0600` and one link.
    pub fn private_file(
        slot: UpgradeArtifactSlot,
        device_id: u64,
        inode: u64,
        owner_id: u32,
        byte_len: u64,
    ) -> (r: Result<Self, UpgradeReceiptError>)
        ensures
            ({
                let v = UpgradeArtifactIdentityView {
                    slot,
                    device_id,
                    inode,
                    owner_id,
                    mode: 0o600,
                    link_count: 1,
                    byte_len,
                };
                match r {
                    Ok(identity) => identity@ == v && v.check() is Ok,
                    Err(e) => v.check() == Err::<(), UpgradeReceiptError>(e),
                }
            }),
    {
        Self::new(slot, device_id, inode, owner_id, 0o600, 1, byte_len)
    }

    /// A private directory: mode `0700` and no content length.
    pub fn private_directory(
        slot: UpgradeArtifactSlot,
        device_id: u64,
        inode: u64,
        owner_id: u32,
        link_count: u64,
    ) -> (r: Result<Self, UpgradeReceiptError>)
        ensures
            ({
                let v = UpgradeArtifactIdentityView {
                    slot,
                    device_id,
                    inode,
                    owner_id,
                    mode: 0o700,
                    link_count,
                    byte_len: 0,
                };
                match r {
                    Ok(identity) => identity@ == v && v.check() is Ok,
                    Err(e) => v.check() == Err::<(), UpgradeReceiptError>(e),
                }
            }),
    {
        Self::new(slot, device_id, inode, owner_id, 0o700, link_count, 0)
    }

    pub fn new(
        slot: UpgradeArtifactSlot,
        device_id: u64,
        inode: u64,
        owner_id: u32,
        mode: u32,
        link_count: u64,
        byte_len: u64,
    ) -> (r: Result<Self, UpgradeReceiptError>)
        ensures
            ({
                let v = UpgradeArtifactIdentityView {
                    slot,
                    device_id,
                    inode,
                    owner_id,
                    mode,
                    link_count,
                    byte_len,
                };
                match r {
                    Ok(identity) => identity@ == v && v.check() is Ok,
                    Err(e) => v.check() == Err::<(), UpgradeReceiptError>(e),
                }
            }),
    {
        let identity = UpgradeArtifactIdentity {
            slot,
            device_id,
            inode,
            owner_id,
            mode,
            link_count,
            byte_len,
        };
        match identity.validate() {
            Ok(()) => Ok(identity),
            Err(e) => Err(e),
        }
    }

    pub fn slot(&self) -> (r: UpgradeArtifactSlot)
        ensures
            r == self@.slot,
    {
        self.slot
    }

    pub fn device_id(&self) -> (r: u64)
        ensures
            r == self@.device_id,
    {
        self.device_id
    }

    pub fn inode(&self) -> (r: u64)
        ensures
            r == self@.inode,
    {
        self.inode
    }

    pub fn owner_id(&self) -> (r: u32)
        ensures
            r == self@.owner_id,
    {
        self.owner_id
    }

    pub fn mode(&self) -> (r: u32)
        ensures
            r == self@.mode,
    {
        self.mode
    }

    pub fn link_count(&self) -> (r: u64)
        ensures
            r == self@.link_count,
    {
        self.link_count
    }

    pub fn byte_len(&self) -> (r: u64)
        ensures
            r == self@.byte_len,
    {
        self.byte_len
    }

    pub fn validate(&self) -> (r: Result<(), UpgradeReceiptError>)
        ensures
            r == self@.check(),
    {
        if self.inode == 0 {
            return Err(
                UpgradeReceiptError::invalid(UpgradeReceiptField::Artifacts, UpgradeReceiptReason::InodeZero),
            );
        }
        let directory = self.slot.expects_directory();
        if self.link_count == 0 || (!directory && self.link_count != 1) {
            return Err(
                UpgradeReceiptError::invalid(
                    UpgradeReceiptField::Artifacts,
                    UpgradeReceiptReason::LinkCountInvalid,
                ),
            );
        }
        if directory && self.mode != 0o700 {
            return Err(
                UpgradeReceiptError::invalid(
                    UpgradeReceiptField::Artifacts,
                    UpgradeReceiptReason::ModeMustBe0700,
                ),
            );
        }
        if !directory && self.mode != 0o600 {
            return Err(
                UpgradeReceiptError::invalid(
                    UpgradeReceiptField::Artifacts,
                    UpgradeReceiptReason::ModeMustBe0600,
                ),
            );
        }
        if directory && self.byte_len != 0 {
            return Err(
                UpgradeReceiptError::invalid(
                    UpgradeReceiptField::Artifacts,
                    UpgradeReceiptReason::DirectoryHasLength,
                ),
            );
        }
        Ok(())
    }
}

/// Inserts `e` after every element whose slot comes no later.
pub open spec fn insert_stable(s: Seq<UpgradeArtifactIdentityView>, e: UpgradeArtifactIdentityView) -> Seq<
    UpgradeArtifactIdentityView,
>
    decreases s.len(),
{
    if s.len() == 0 {
        seq![e]
    } else if s.last().slot.rank_spec() <= e.slot.rank_spec() {
        s.push(e)
    } else {
        insert_stable(s.drop_last(), e).push(s.last())
    }
}

/// The artifacts in slot order, equal slots keeping their relative order: what a
/// stable sort by slot yields.
pub open spec fn sort_by_slot(s: Seq<UpgradeArtifactIdentityView>) -> Seq<UpgradeArtifactIdentityView>
    decreases s.len(),
{
    if s.len() == 0 {
        s
    } else {
        insert_stable(sort_by_slot(s.drop_last()), s.last())
    }
}

pub open spec fn slots_nondecreasing(s: Seq<UpgradeArtifactIdentityView>) -> bool {
    forall|i: int, j: int|
        0 <= i < j < s.len() ==> #[trigger] s[i].slot.rank_spec() <= #[trigger] s[j].slot.rank_spec()
}

pub open spec fn slots_increasing(s: Seq<UpgradeArtifactIdentityView>) -> bool {
    forall|i: int, j: int|
        0 <= i < j < s.len() ==> #[trigger] s[i].slot.rank_spec() < #[trigger] s[j].slot.rank_spec()
}

pub proof fn lemma_insert_stable_at(s: Seq<UpgradeArtifactIdentityView>, e: UpgradeArtifactIdentityView, p: int)
    requires
        0 <= p <= s.len(),
        forall|i: int| 0 <= i < p ==> #[trigger] s[i].slot.rank_spec() <= e.slot.rank_spec(),
        forall|i: int| p <= i < s.len() ==> #[trigger] s[i].slot.rank_spec() > e.slot.rank_spec(),
    ensures
        insert_stable(s, e) == s.insert(p, e),
    decreases s.len(),
{
    if s.len() == 0 {
        assert(s.insert(p, e) =~= seq![e]);
    } else if p == s.len() {
        assert(s.insert(p, e) =~= s.push(e));
    } else {
        lemma_insert_stable_at(s.drop_last(), e, p);
        assert(s.drop_last().insert(p, e).push(s.last()) =~= s.insert(p, e));
    }
}

pub open spec fn artifact_views(s: Seq<UpgradeArtifactIdentity>) -> Seq<UpgradeArtifactIdentityView> {
    s.map_values(|a: UpgradeArtifactIdentity| a@)
}

/// Where `slot` goes among nondecreasing artifacts, after any equal slot.
fn stable_insertion_point(artifacts: &Vec<UpgradeArtifactIdentity>, slot: UpgradeArtifactSlot) -> (p: usize)
    requires
        slots_nondecreasing(artifact_views(artifacts@)),
    ensures
        p <= artifacts@.len(),
        forall|i: int|
            0 <= i < p ==> #[trigger] artifact_views(artifacts@)[i].slot.rank_spec() <= slot.rank_spec(),
        forall|i: int|
            p <= i < artifacts@.len() ==> #[trigger] artifact_views(artifacts@)[i].slot.rank_spec()
                > slot.rank_spec(),
{
    let ghost s = artifact_views(artifacts@);
    let rank = slot.rank();
    let mut p = artifacts.len();
    while p > 0 && artifacts[p - 1].slot().rank() > rank
        invariant
            p <= artifacts@.len(),
            s == artifact_views(artifacts@),
            rank == slot.rank_spec(),
            forall|i: int| p <= i < s.len() ==> #[trigger] s[i].slot.rank_spec() > rank,
        decreases p,
    {
        p = p - 1;
    }
    proof {
        assert forall|i: int| 0 <= i < p implies #[trigger] s[i].slot.rank_spec() <= rank by {
            if i < p - 1 {
                assert(s[i].slot.rank_spec() <= s[p - 1].slot.rank_spec());
            }
        }
    }
    p
}

/// Inserts `artifact` into nondecreasing artifacts after any equal slot.
fn insert_stably(artifacts: &mut Vec<UpgradeArtifactIdentity>, artifact: UpgradeArtifactIdentity)
    requires
        slots_nondecreasing(artifact_views(old(artifacts)@)),
    ensures
        artifact_views(final(artifacts)@) == insert_stable(artifact_views(old(artifacts)@), artifact@),
        slots_nondecreasing(artifact_views(final(artifacts)@)),
{
    let ghost s = artifact_views(artifacts@);
    let p = stable_insertion_point(artifacts, artifact.slot());
    proof {
        lemma_insert_stable_at(s, artifact@, p as int);
    }
    artifacts.insert(p, artifact);
    proof {
        assert(artifact_views(artifacts@) =~= s.insert(p as int, artifact@));
        let n = s.insert(p as int, artifact@);
        assert forall|i: int, j: int| 0 <= i < j < n.len() implies #[trigger] n[i].slot.rank_spec()
            <= #[trigger] n[j].slot.rank_spec() by {
            if i < p && j > p {
                assert(n[i] == s[i]);
                assert(n[j] == s[j - 1]);
            } else if i < p && j == p {
            } else if i == p {
                assert(n[j] == s[j - 1]);
            } else if i < p {
                assert(n[i] == s[i] && n[j] == s[j]);
            } else {
                assert(n[i] == s[i - 1] && n[j] == s[j - 1]);
            }
        }
    }
}

/// Sorts artifacts by slot, keeping the order of equal slots.
fn sort_artifacts_by_slot(artifacts: Vec<UpgradeArtifactIdentity>) -> (r: Vec<UpgradeArtifactIdentity>)
    ensures
        artifact_views(r@) == sort_by_slot(artifact_views(artifacts@)),
{
    let ghost input = artifact_views(artifacts@);
    let mut sorted: Vec<UpgradeArtifactIdentity> = Vec::new();
    let mut i: usize = 0;
    assert(artifact_views(sorted@) =~= sort_by_slot(input.take(0)));
    while i < artifacts.len()
        invariant
            i <= artifacts@.len(),
            input == artifact_views(artifacts@),
            artifact_views(sorted@) == sort_by_slot(input.take(i as int)),
            slots_nondecreasing(artifact_views(sorted@)),
        decreases artifacts@.len() - i,
    {
        let item = artifacts[i];
        proof {
            assert(input.take(i + 1).drop_last() =~= input.take(i as int));
            assert(input.take(i + 1).last() == item@);
        }
        insert_stably(&mut sorted, item);
        i = i + 1;
    }
    assert(input.take(artifacts@.len() as int) =~= input);
    sorted
}

/// `x` occurs in `s`.
pub open spec fn occurs_in(s: Seq<UpgradeArtifactIdentityView>, x: UpgradeArtifactIdentityView) -> bool {
    exists|j: int| 0 <= j < s.len() && s[j] == x
}

/// Every element of `previous` also occurs in `next`.
pub open spec fn append_only(
    previous: Seq<UpgradeArtifactIdentityView>,
    next: Seq<UpgradeArtifactIdentityView>,
) -> bool {
    forall|i: int| 0 <= i < previous.len() ==> occurs_in(next, #[trigger] previous[i])
}

pub open spec fn operation_id_check(value: Seq<char>, field: UpgradeReceiptField) -> Result<
    (),
    UpgradeReceiptError,
> {
    if lower_hex_of_len(value, 32) {
        Ok(())
    } else {
        Err(upgrade_error(field, UpgradeReceiptReason::OperationIdNotHex))
    }
}

/// Each artifact is valid and its slot comes strictly after the one before it;
/// the first refusal in order.
pub open spec fn artifact_list_check(
    s: Seq<UpgradeArtifactIdentityView>,
    previous: Option<UpgradeArtifactSlot>,
) -> Result<(), UpgradeReceiptError>
    decreases s.len(),
{
    if s.len() == 0 {
        Ok(())
    } else if s[0].check() is Err {
        s[0].check()
    } else if previous matches Some(p) && p.rank_spec() >= s[0].slot.rank_spec() {
        Err(upgrade_error(UpgradeReceiptField::Artifacts, UpgradeReceiptReason::ArtifactsNotCanonical))
    } else {
        artifact_list_check(s.drop_first(), Some(s[0].slot))
    }
}

pub struct UpgradeReceiptView {
    pub receipt_format: Seq<char>,
    pub operation_id: Seq<char>,
    pub previous_operation_id: Option<Seq<char>>,
    pub data_layout: DataLayout,
    pub source_release: ProductReleaseView,
    pub target_release: ProductReleaseView,
    pub source_schema_version: Option<i64>,
    pub target_schema_version: i64,
    pub state: UpgradeState,
    pub failure_code: Option<UpgradeFailureCode>,
    pub failure_after_state: Option<UpgradeState>,
    pub manual_recovery_required: bool,
    pub artifacts: Seq<UpgradeArtifactIdentityView>,
}

impl UpgradeReceiptView {
    pub open spec fn has(self, slot: UpgradeArtifactSlot) -> bool {
        exists|i: int| 0 <= i < self.artifacts.len() && #[trigger] self.artifacts[i].slot == slot
    }

    pub open spec fn previous_operation_check(self) -> Result<(), UpgradeReceiptError> {
        match self.previous_operation_id {
            Some(previous) => if !lower_hex_of_len(previous, 32) {
                Err(upgrade_error(UpgradeReceiptField::PreviousOperationId, UpgradeReceiptReason::OperationIdNotHex))
            } else if previous == self.operation_id {
                Err(upgrade_error(UpgradeReceiptField::PreviousOperationId, UpgradeReceiptReason::PreviousOperationSame))
            } else {
                Ok(())
            },
            None => Ok(()),
        }
    }

    /// The checks on releases and schema versions, in order.
    pub open spec fn release_check(self) -> Result<(), UpgradeReceiptError> {
        if self.source_release.check(UpgradeReceiptField::SourceRelease) is Err {
            self.source_release.check(UpgradeReceiptField::SourceRelease)
        } else if self.target_release.check(UpgradeReceiptField::TargetRelease) is Err {
            self.target_release.check(UpgradeReceiptField::TargetRelease)
        } else if self.source_release == self.target_release {
            Err(upgrade_error(UpgradeReceiptField::TargetRelease, UpgradeReceiptReason::TargetReleaseSame))
        } else if self.source_schema_version matches Some(v) && v < 0 {
            Err(upgrade_error(UpgradeReceiptField::SourceSchemaVersion, UpgradeReceiptReason::SourceSchemaNegative))
        } else if self.target_schema_version <= 0 {
            Err(upgrade_error(UpgradeReceiptField::TargetSchemaVersion, UpgradeReceiptReason::TargetSchemaNotPositive))
        } else {
            Ok(())
        }
    }

    /// The checks on which artifact identities are present, in order.
    pub open spec fn presence_check(self) -> Result<(), UpgradeReceiptError> {
        let evidence_state = match self.failure_after_state {
            Some(s) => s,
            None => self.state,
        };
        if !self.has(UpgradeArtifactSlot::DataRoot) {
            Err(upgrade_error(UpgradeReceiptField::Artifacts, UpgradeReceiptReason::DataRootMissing))
        } else if self.source_schema_version.is_some() != self.has(UpgradeArtifactSlot::SourceDatabase) {
            Err(upgrade_error(UpgradeReceiptField::SourceSchemaVersion, UpgradeReceiptReason::SourceDatabaseSchemaDisagree))
        } else if self.has(UpgradeArtifactSlot::SourceSettings) != self.has(UpgradeArtifactSlot::BackupSettings)
            && !(self.state is Preflighted || self.state is Quiesced) {
            Err(upgrade_error(UpgradeReceiptField::Artifacts, UpgradeReceiptReason::SettingsDisagree))
        } else if state_at_least_spec(evidence_state, UpgradeState::SnapshotReady) && !self.has(
            UpgradeArtifactSlot::SnapshotDatabase,
        ) {
            Err(upgrade_error(UpgradeReceiptField::Artifacts, UpgradeReceiptReason::SnapshotRequired))
        } else if state_at_least_spec(evidence_state, UpgradeState::CandidateMigrated) && !self.has(
            UpgradeArtifactSlot::CandidateDatabase,
        ) {
            Err(upgrade_error(UpgradeReceiptField::Artifacts, UpgradeReceiptReason::CandidateRequired))
        } else if state_at_least_spec(evidence_state, UpgradeState::SwitchPrepared) && !self.has(
            UpgradeArtifactSlot::BackupDatabase,
        ) {
            Err(upgrade_error(UpgradeReceiptField::Artifacts, UpgradeReceiptReason::BackupRequired))
        } else {
            Ok(())
        }
    }

    /// Failure fields are present exactly in the failure states.
    pub open spec fn failure_check(self) -> Result<(), UpgradeReceiptError> {
        match self.state {
            UpgradeState::AbortedPreserved => if self.failure_code is None || !(
            self.failure_after_state matches Some(s) && s.pre_switch()) {
                Err(upgrade_error(UpgradeReceiptField::FailureCode, UpgradeReceiptReason::AbortedInconsistent))
            } else {
                Ok(())
            },
            UpgradeState::RollbackRequired => if self.failure_code is None || !(
            self.failure_after_state == Some(UpgradeState::Switched) || self.failure_after_state
                == Some(UpgradeState::PostSwitchVerified)) || !self.manual_recovery_required {
                Err(upgrade_error(UpgradeReceiptField::RollbackRequired, UpgradeReceiptReason::RollbackRequiredInconsistent))
            } else {
                Ok(())
            },
            UpgradeState::RolledBack => if self.failure_code is None || !(self.failure_after_state
                == Some(UpgradeState::Switched) || self.failure_after_state == Some(
                UpgradeState::PostSwitchVerified,
            )) || self.manual_recovery_required {
                Err(upgrade_error(UpgradeReceiptField::RolledBack, UpgradeReceiptReason::RolledBackInconsistent))
            } else {
                Ok(())
            },
            _ => if self.failure_code is Some || self.failure_after_state is Some
                || self.manual_recovery_required {
                Err(upgrade_error(UpgradeReceiptField::State, UpgradeReceiptReason::NormalStateHasFailure))
            } else {
                Ok(())
            },
        }
    }

    /// Every check a receipt must pass, in the order they are made.
    #[verifier::opaque]
    pub open spec fn validation(self) -> Result<(), UpgradeReceiptError> {
        if self.receipt_format != UPGRADE_RECEIPT_FORMAT@ {
            Err(upgrade_error(UpgradeReceiptField::ReceiptFormat, UpgradeReceiptReason::UnsupportedFormat))
        } else if operation_id_check(self.operation_id, UpgradeReceiptField::OperationId) is Err {
            operation_id_check(self.operation_id, UpgradeReceiptField::OperationId)
        } else if self.previous_operation_check() is Err {
            self.previous_operation_check()
        } else if self.release_check() is Err {
            self.release_check()
        } else if self.artifacts.len() == 0 {
            Err(upgrade_error(UpgradeReceiptField::Artifacts, UpgradeReceiptReason::ArtifactsEmpty))
        } else if artifact_list_check(self.artifacts, None) is Err {
            artifact_list_check(self.artifacts, None)
        } else if self.presence_check() is Err {
            self.presence_check()
        } else {
            self.failure_check()
        }
    }

    pub open spec fn wf(self) -> bool {
        self.validation() is Ok
    }

    pub open spec fn with_state(self, state: UpgradeState) -> Self {
        UpgradeReceiptView { state, ..self }
    }

    pub open spec fn with_artifacts(self, artifacts: Seq<UpgradeArtifactIdentityView>) -> Self {
        UpgradeReceiptView { artifacts, ..self }
    }

    pub open spec fn record_result(self, a: UpgradeArtifactIdentityView) -> Result<(), UpgradeReceiptError> {
        if self.state.terminal() {
            Err(upgrade_error(UpgradeReceiptField::State, UpgradeReceiptReason::TerminalCannotRecord))
        } else if self.has(a.slot) {
            Err(upgrade_error(UpgradeReceiptField::Artifacts, UpgradeReceiptReason::SlotAlreadyRecorded))
        } else if a.check() is Err {
            a.check()
        } else {
            self.with_artifacts(insert_stable(self.artifacts, a)).validation()
        }
    }

    pub open spec fn advance_result(self, next: UpgradeState) -> Result<(), UpgradeReceiptError> {
        if !normal_successor_spec(self.state, next) {
            Err(upgrade_error(UpgradeReceiptField::State, UpgradeReceiptReason::TransitionNotAllowed))
        } else {
            self.with_state(next).validation()
        }
    }

    /// The receipt after a pre-switch failure.
    pub open spec fn aborted(self, code: UpgradeFailureCode, manual: bool) -> Self {
        UpgradeReceiptView {
            state: UpgradeState::AbortedPreserved,
            failure_code: Some(code),
            failure_after_state: Some(self.state),
            manual_recovery_required: manual,
            ..self
        }
    }

    pub open spec fn abort_result(self, code: UpgradeFailureCode, manual: bool) -> Result<
        (),
        UpgradeReceiptError,
    > {
        if !self.state.pre_switch() {
            Err(upgrade_error(UpgradeReceiptField::State, UpgradeReceiptReason::AbortRequiresPreSwitch))
        } else {
            self.aborted(code, manual).validation()
        }
    }

    /// The receipt after a failure once the candidate was switched in.
    pub open spec fn rollback_required(self, code: UpgradeFailureCode) -> Self {
        UpgradeReceiptView {
            state: UpgradeState::RollbackRequired,
            failure_code: Some(code),
            failure_after_state: Some(self.state),
            manual_recovery_required: true,
            ..self
        }
    }

    pub open spec fn rollback_result(self, code: UpgradeFailureCode) -> Result<(), UpgradeReceiptError> {
        if !(self.state is Switched || self.state is PostSwitchVerified) {
            Err(upgrade_error(UpgradeReceiptField::State, UpgradeReceiptReason::RollbackRequiresSwitch))
        } else {
            self.rollback_required(code).validation()
        }
    }

    pub open spec fn rolled_back(self) -> Self {
        UpgradeReceiptView { state: UpgradeState::RolledBack, manual_recovery_required: false, ..self }
    }

    pub open spec fn rolled_back_result(self) -> Result<(), UpgradeReceiptError> {
        if self.state != UpgradeState::RollbackRequired {
            Err(upgrade_error(UpgradeReceiptField::State, UpgradeReceiptReason::FinishRequiresRollbackRequired))
        } else {
            self.rolled_back().validation()
        }
    }

    /// `next` may be persisted in place of `previous`: the same operation, both
    /// well-formed, evidence only extended, and either the same open state with the
    /// same failure fields or one step of the operation.
    pub open spec fn can_replace(next: Self, previous: Self) -> bool {
        &&& next.receipt_format == previous.receipt_format
        &&& next.operation_id == previous.operation_id
        &&& next.previous_operation_id == previous.previous_operation_id
        &&& next.data_layout == previous.data_layout
        &&& next.source_release == previous.source_release
        &&& next.target_release == previous.target_release
        &&& next.source_schema_version == previous.source_schema_version
        &&& next.target_schema_version == previous.target_schema_version
        &&& next.wf()
        &&& previous.wf()
        &&& append_only(previous.artifacts, next.artifacts)
        &&& if next.state == previous.state {
            !next.state.terminal() && next.failure_code == previous.failure_code
                && next.failure_after_state == previous.failure_after_state
                && next.manual_recovery_required == previous.manual_recovery_required
        } else {
            normal_successor_spec(previous.state, next.state) || (previous.state.pre_switch()
                && next.state == UpgradeState::AbortedPreserved && next.failure_after_state
                == Some(previous.state)) || ((previous.state is Switched
                || previous.state is PostSwitchVerified) && next.state
                == UpgradeState::RollbackRequired) || (previous.state
                == UpgradeState::RollbackRequired && next.state == UpgradeState::RolledBack)
        }
    }
}

/// A well-formed receipt lists its artifacts in strictly increasing slot order.
pub proof fn lemma_wf_sorted(v: UpgradeReceiptView)
    requires
        v.wf(),
    ensures
        slots_increasing(v.artifacts),
        slots_nondecreasing(v.artifacts),
{
    reveal(UpgradeReceiptView::validation);
    lemma_list_check_sorted(v.artifacts, None);
}

pub proof fn lemma_list_check_sorted(s: Seq<UpgradeArtifactIdentityView>, previous: Option<UpgradeArtifactSlot>)
    requires
        artifact_list_check(s, previous) is Ok,
    ensures
        slots_increasing(s),
        slots_nondecreasing(s),
        previous matches Some(p) ==> forall|i: int| 0 <= i < s.len() ==> p.rank_spec() < #[trigger] s[i].slot.rank_spec(),
    decreases s.len(),
{
    if s.len() > 0 {
        let rest = s.drop_first();
        lemma_list_check_sorted(rest, Some(s[0].slot));
        assert forall|i: int, j: int| 0 <= i < j < s.len() implies #[trigger] s[i].slot.rank_spec()
            < #[trigger] s[j].slot.rank_spec() by {
            if i > 0 {
                assert(rest[i - 1] == s[i] && rest[j - 1] == s[j]);
            } else {
                assert(rest[j - 1] == s[j]);
            }
        }
        if previous is Some {
            assert forall|i: int| 0 <= i < s.len() implies previous->0.rank_spec() < #[trigger] s[i].slot.rank_spec() by {
                if i > 0 {
                    assert(rest[i - 1] == s[i]);
                }
            }
        }
    }
}

pub open spec fn option_text_view(s: Option<String>) -> Option<Seq<char>> {
    match s {
        Some(s) => Some(s@),
        None => None,
    }
}

/// The upgrade receipt of one data migration.
#[derive(Debug, Clone, PartialEq, Eq)]
pub struct UpgradeReceipt {
    receipt_format: String,
    operation_id: String,
    previous_operation_id: Option<String>,
    data_layout: DataLayout,
    source_release: ProductRelease,
    target_release: ProductRelease,
    source_schema_version: Option<i64>,
    target_schema_version: i64,
    state: UpgradeState,
    failure_code: Option<UpgradeFailureCode>,
    failure_after_state: Option<UpgradeState>,
    manual_recovery_required: bool,
    artifacts: Vec<UpgradeArtifactIdentity>,
}

impl View for UpgradeReceipt {
    type V = UpgradeReceiptView;

    closed spec fn view(&self) -> UpgradeReceiptView {
        UpgradeReceiptView {
            receipt_format: self.receipt_format@,
            operation_id: self.operation_id@,
            previous_operation_id: option_text_view(self.previous_operation_id),
            data_layout: self.data_layout,
            source_release: self.source_release@,
            target_release: self.target_release@,
            source_schema_version: self.source_schema_version,
            target_schema_version: self.target_schema_version,
            state: self.state,
            failure_code: self.failure_code,
            failure_after_state: self.failure_after_state,
            manual_recovery_required: self.manual_recovery_required,
            artifacts: artifact_views(self.artifacts@),
        }
    }
}

fn validate_operation_id(value: &str, field: UpgradeReceiptField) -> (r: Result<(), UpgradeReceiptError>)
    ensures
        r == operation_id_check(value@, field),
{
    if is_lower_hex_of_len(value, 32) {
        Ok(())
    } else {
        Err(UpgradeReceiptError::invalid(field, UpgradeReceiptReason::OperationIdNotHex))
    }
}

/// Every successful unit result is `Ok(())`.
pub proof fn lemma_unit_ok<E>(r: Result<(), E>)
    requires
        r is Ok,
    ensures
        r == Ok::<(), E>(()),
{
    match r {
        Ok(u) => {
            let () = u;
        },
        Err(_) => {},
    }
}

fn same_optional_state(a: Option<UpgradeState>, b: Option<UpgradeState>) -> (r: bool)
    ensures
        r == (a == b),
{
    match (a, b) {
        (Some(x), Some(y)) => x == y,
        (None, None) => true,
        _ => false,
    }
}

fn same_failure_code(a: Option<UpgradeFailureCode>, b: Option<UpgradeFailureCode>) -> (r: bool)
    ensures
        r == (a == b),
{
    match (a, b) {
        (Some(x), Some(y)) => x == y,
        (None, None) => true,
        _ => false,
    }
}

fn same_optional_schema(a: Option<i64>, b: Option<i64>) -> (r: bool)
    ensures
        r == (a == b),
{
    match (a, b) {
        (Some(x), Some(y)) => x == y,
        (None, None) => true,
        _ => false,
    }
}

fn same_optional_text(a: &Option<String>, b: &Option<String>) -> (r: bool)
    ensures
        r == (option_text_view(*a) == option_text_view(*b)),
{
    match (a, b) {
        (Some(x), Some(y)) => *x == *y,
        (None, None) => true,
        _ => false,
    }
}

/// Every element of `previous` also occurs in `next`.
fn artifacts_are_append_only(previous: &Vec<UpgradeArtifactIdentity>, next: &Vec<UpgradeArtifactIdentity>) -> (r:
    bool)
    ensures
        r == append_only(artifact_views(previous@), artifact_views(next@)),
{
    let ghost c = artifact_views(previous@);
    let ghost n = artifact_views(next@);
    let mut i: usize = 0;
    while i < previous.len()
        invariant
            i <= previous@.len(),
            c == artifact_views(previous@),
            n == artifact_views(next@),
            forall|a: int| 0 <= a < i ==> occurs_in(n, #[trigger] c[a]),
        decreases previous@.len() - i,
    {
        let mut j: usize = 0;
        let mut found = false;
        while j < next.len()
            invariant
                j <= next@.len(),
                i < previous@.len(),
                c == artifact_views(previous@),
                n == artifact_views(next@),
                found ==> occurs_in(n, c[i as int]),
                !found ==> forall|k: int| 0 <= k < j ==> #[trigger] n[k] != c[i as int],
            decreases next@.len() - j,
        {
            if !found && next[j] == previous[i] {
                assert(n[j as int] == next@[j as int]@);
                assert(c[i as int] == previous@[i as int]@);
                found = true;
            }
            j = j + 1;
        }
        if !found {
            assert(!occurs_in(n, c[i as int]));
            return false;
        }
        i = i + 1;
    }
    true
}

impl UpgradeReceipt {
    fn has_slot(&self, slot: UpgradeArtifactSlot) -> (r: bool)
        ensures
            r == self@.has(slot),
    {
        let ghost s = self@.artifacts;
        let mut i: usize = 0;
        while i < self.artifacts.len()
            invariant
                i <= self.artifacts@.len(),
                s == artifact_views(self.artifacts@),
                s == self@.artifacts,
                forall|k: int| 0 <= k < i ==> #[trigger] s[k].slot != slot,
            decreases self.artifacts@.len() - i,
        {
            if self.artifacts[i].slot() == slot {
                assert(s[i as int].slot == slot);
                return true;
            }
            i = i + 1;
        }
        false
    }

    fn validate_previous_operation(&self) -> (r: Result<(), UpgradeReceiptError>)
        ensures
            r == self@.previous_operation_check(),
    {
        match &self.previous_operation_id {
            Some(previous) => {
                match validate_operation_id(previous.as_str(), UpgradeReceiptField::PreviousOperationId) {
                    Err(e) => return Err(e),
                    Ok(()) => {},
                }
                if *previous == self.operation_id {
                    return Err(
                        UpgradeReceiptError::invalid(
                            UpgradeReceiptField::PreviousOperationId,
                            UpgradeReceiptReason::PreviousOperationSame,
                        ),
                    );
                }
                Ok(())
            },
            None => Ok(()),
        }
    }

    fn validate_releases(&self) -> (r: Result<(), UpgradeReceiptError>)
        ensures
            r == self@.release_check(),
    {
        match self.source_release.validate(UpgradeReceiptField::SourceRelease) {
            Err(e) => return Err(e),
            Ok(()) => {},
        }
        match self.target_release.validate(UpgradeReceiptField::TargetRelease) {
            Err(e) => return Err(e),
            Ok(()) => {},
        }
        if self.source_release.same_as(&self.target_release) {
            return Err(
                UpgradeReceiptError::invalid(
                    UpgradeReceiptField::TargetRelease,
                    UpgradeReceiptReason::TargetReleaseSame,
                ),
            );
        }
        match self.source_schema_version {
            Some(version) => {
                if version < 0 {
                    return Err(
                        UpgradeReceiptError::invalid(
                            UpgradeReceiptField::SourceSchemaVersion,
                            UpgradeReceiptReason::SourceSchemaNegative,
                        ),
                    );
                }
            },
            None => {},
        }
        if self.target_schema_version <= 0 {
            return Err(
                UpgradeReceiptError::invalid(
                    UpgradeReceiptField::TargetSchemaVersion,
                    UpgradeReceiptReason::TargetSchemaNotPositive,
                ),
            );
        }
        Ok(())
    }

    fn validate_artifact_list(&self) -> (r: Result<(), UpgradeReceiptError>)
        ensures
            r == artifact_list_check(self@.artifacts, None),
    {
        let ghost s = self@.artifacts;
        let mut previous: Option<UpgradeArtifactSlot> = None;
        let mut i: usize = 0;
        assert(s.skip(0) =~= s);
        while i < self.artifacts.len()
            invariant
                i <= self.artifacts@.len(),
                s == self@.artifacts,
                s.len() == self.artifacts@.len(),
                previous == (if i == 0 {
                    None
                } else {
                    Some(s[i - 1].slot)
                }),
                artifact_list_check(s, None) == artifact_list_check(s.skip(i as int), previous),
            decreases self.artifacts@.len() - i,
        {
            let artifact = self.artifacts[i];
            let ghost rest = s.skip(i as int);
            assert(rest[0] == s[i as int]);
            assert(rest.drop_first() =~= s.skip(i + 1));
            match artifact.validate() {
                Err(e) => return Err(e),
                Ok(()) => {},
            }
            match previous {
                Some(p) => {
                    if p.rank() >= artifact.slot().rank() {
                        return Err(
                            UpgradeReceiptError::invalid(
                                UpgradeReceiptField::Artifacts,
                                UpgradeReceiptReason::ArtifactsNotCanonical,
                            ),
                        );
                    }
                },
                None => {},
            }
            previous = Some(artifact.slot());
            i = i + 1;
        }
        assert(s.skip(i as int).len() == 0);
        Ok(())
    }

    fn validate_presence(&self) -> (r: Result<(), UpgradeReceiptError>)
        ensures
            r == self@.presence_check(),
    {
        let evidence_state = match self.failure_after_state {
            Some(s) => s,
            None => self.state,
        };
        if !self.has_slot(UpgradeArtifactSlot::DataRoot) {
            return Err(
                UpgradeReceiptError::invalid(
                    UpgradeReceiptField::Artifacts,
                    UpgradeReceiptReason::DataRootMissing,
                ),
            );
        }
        if self.source_schema_version.is_some() != self.has_slot(UpgradeArtifactSlot::SourceDatabase) {
            return Err(
                UpgradeReceiptError::invalid(
                    UpgradeReceiptField::SourceSchemaVersion,
                    UpgradeReceiptReason::SourceDatabaseSchemaDisagree,
                ),
            );
        }
        if self.has_slot(UpgradeArtifactSlot::SourceSettings) != self.has_slot(
            UpgradeArtifactSlot::BackupSettings,
        ) && !matches!(self.state, UpgradeState::Preflighted | UpgradeState::Quiesced) {
            return Err(
                UpgradeReceiptError::invalid(
                    UpgradeReceiptField::Artifacts,
                    UpgradeReceiptReason::SettingsDisagree,
                ),
            );
        }
        if state_at_least(evidence_state, UpgradeState::SnapshotReady) && !self.has_slot(
            UpgradeArtifactSlot::SnapshotDatabase,
        ) {
            return Err(
                UpgradeReceiptError::invalid(
                    UpgradeReceiptField::Artifacts,
                    UpgradeReceiptReason::SnapshotRequired,
                ),
            );
        }
        if state_at_least(evidence_state, UpgradeState::CandidateMigrated) && !self.has_slot(
            UpgradeArtifactSlot::CandidateDatabase,
        ) {
            return Err(
                UpgradeReceiptError::invalid(
                    UpgradeReceiptField::Artifacts,
                    UpgradeReceiptReason::CandidateRequired,
                ),
            );
        }
        if state_at_least(evidence_state, UpgradeState::SwitchPrepared) && !self.has_slot(
            UpgradeArtifactSlot::BackupDatabase,
        ) {
            return Err(
                UpgradeReceiptError::invalid(
                    UpgradeReceiptField::Artifacts,
                    UpgradeReceiptReason::BackupRequired,
                ),
            );
        }
        Ok(())
    }

    fn validate_failure(&self) -> (r: Result<(), UpgradeReceiptError>)
        ensures
            r == self@.failure_check(),
    {
        match self.state {
            UpgradeState::AbortedPreserved => {
                let stage_ok = match self.failure_after_state {
                    Some(s) => s.is_pre_switch(),
                    None => false,
                };
                if self.failure_code.is_none() || !stage_ok {
                    return Err(
                        UpgradeReceiptError::invalid(
                            UpgradeReceiptField::FailureCode,
                            UpgradeReceiptReason::AbortedInconsistent,
                        ),
                    );
                }
            },
            UpgradeState::RollbackRequired => {
                let stage_ok = matches!(
                    self.failure_after_state,
                    Some(UpgradeState::Switched) | Some(UpgradeState::PostSwitchVerified)
                );
                if self.failure_code.is_none() || !stage_ok || !self.manual_recovery_required {
                    return Err(
                        UpgradeReceiptError::invalid(
                            UpgradeReceiptField::RollbackRequired,
                            UpgradeReceiptReason::RollbackRequiredInconsistent,
                        ),
                    );
                }
            },
            UpgradeState::RolledBack => {
                let stage_ok = matches!(
                    self.failure_after_state,
                    Some(UpgradeState::Switched) | Some(UpgradeState::PostSwitchVerified)
                );
                if self.failure_code.is_none() || !stage_ok || self.manual_recovery_required {
                    return Err(
                        UpgradeReceiptError::invalid(
                            UpgradeReceiptField::RolledBack,
                            UpgradeReceiptReason::RolledBackInconsistent,
                        ),
                    );
                }
            },
            _ => {
                if self.failure_code.is_some() || self.failure_after_state.is_some()
                    || self.manual_recovery_required {
                    return Err(
                        UpgradeReceiptError::invalid(
                            UpgradeReceiptField::State,
                            UpgradeReceiptReason::NormalStateHasFailure,
                        ),
                    );
                }
            },
        }
        Ok(())
    }

    /// Runs every receipt check in order and reports the first refusal.
    pub fn validate(&self) -> (r: Result<(), UpgradeReceiptError>)
        ensures
            r == self@.validation(),
    {
        reveal(UpgradeReceiptView::validation);
        if !same_text(self.receipt_format.as_str(), UPGRADE_RECEIPT_FORMAT) {
            return Err(
                UpgradeReceiptError::invalid(
                    UpgradeReceiptField::ReceiptFormat,
                    UpgradeReceiptReason::UnsupportedFormat,
                ),
            );
        }
        match validate_operation_id(self.operation_id.as_str(), UpgradeReceiptField::OperationId) {
            Err(e) => return Err(e),
            Ok(()) => {},
        }
        match self.validate_previous_operation() {
            Err(e) => return Err(e),
            Ok(()) => {},
        }
        match self.validate_releases() {
            Err(e) => return Err(e),
            Ok(()) => {},
        }
        if self.artifacts.len() == 0 {
            return Err(
                UpgradeReceiptError::invalid(
                    UpgradeReceiptField::Artifacts,
                    UpgradeReceiptReason::ArtifactsEmpty,
                ),
            );
        }
        match self.validate_artifact_list() {
            Err(e) => return Err(e),
            Ok(()) => {},
        }
        match self.validate_presence() {
            Err(e) => return Err(e),
            Ok(()) => {},
        }
        self.validate_failure()
    }
}


/// Inserting an element keeps every earlier element.
pub proof fn lemma_insert_append_only(s: Seq<UpgradeArtifactIdentityView>, e: UpgradeArtifactIdentityView, p: int)
    requires
        0 <= p <= s.len(),
    ensures
        append_only(s, s.insert(p, e)),
{
    let n = s.insert(p, e);
    assert forall|i: int| 0 <= i < s.len() implies occurs_in(n, #[trigger] s[i]) by {
        if i < p {
            assert(n[i] == s[i]);
        } else {
            assert(n[i + 1] == s[i]);
        }
    }
}

/// Every sequence extends itself.
pub proof fn lemma_append_only_reflexive(s: Seq<UpgradeArtifactIdentityView>)
    ensures
        append_only(s, s),
{
    assert forall|i: int| 0 <= i < s.len() implies occurs_in(s, #[trigger] s[i]) by {}
}

impl UpgradeReceipt {
    /// A fresh receipt in `Preflighted`, its artifacts sorted by slot.
    pub fn new(
        operation_id: String,
        previous_operation_id: Option<String>,
        source_release: ProductRelease,
        target_release: ProductRelease,
        source_schema_version: Option<i64>,
        target_schema_version: i64,
        artifacts: Vec<UpgradeArtifactIdentity>,
    ) -> (r: Result<Self, UpgradeReceiptError>)
        ensures
            ({
                let v = UpgradeReceiptView {
                    receipt_format: UPGRADE_RECEIPT_FORMAT@,
                    operation_id: operation_id@,
                    previous_operation_id: option_text_view(previous_operation_id),
                    data_layout: DataLayout::ApplicationSupportV1,
                    source_release: source_release@,
                    target_release: target_release@,
                    source_schema_version,
                    target_schema_version,
                    state: UpgradeState::Preflighted,
                    failure_code: None,
                    failure_after_state: None,
                    manual_recovery_required: false,
                    artifacts: sort_by_slot(artifact_views(artifacts@)),
                };
                match r {
                    Ok(receipt) => receipt@ == v && v.wf(),
                    Err(e) => v.validation() == Err::<(), UpgradeReceiptError>(e),
                }
            }),
    {
        let artifacts = sort_artifacts_by_slot(artifacts);
        let receipt = UpgradeReceipt {
            receipt_format: UPGRADE_RECEIPT_FORMAT.to_owned(),
            operation_id,
            previous_operation_id,
            data_layout: DataLayout::ApplicationSupportV1,
            source_release,
            target_release,
            source_schema_version,
            target_schema_version,
            state: UpgradeState::Preflighted,
            failure_code: None,
            failure_after_state: None,
            manual_recovery_required: false,
            artifacts,
        };
        match receipt.validate() {
            Ok(()) => Ok(receipt),
            Err(e) => Err(e),
        }
    }

    pub fn state(&self) -> (r: UpgradeState)
        ensures
            r == self@.state,
    {
        self.state
    }

    pub fn operation_id(&self) -> (r: &str)
        ensures
            r@ == self@.operation_id,
    {
        self.operation_id.as_str()
    }

    pub fn previous_operation_id(&self) -> (r: Option<&str>)
        ensures
            match r {
                Some(s) => self@.previous_operation_id == Some(s@),
                None => self@.previous_operation_id is None,
            },
    {
        match &self.previous_operation_id {
            Some(s) => Some(s.as_str()),
            None => None,
        }
    }

    pub fn data_layout(&self) -> (r: DataLayout)
        ensures
            r == self@.data_layout,
    {
        self.data_layout
    }

    pub fn source_release(&self) -> (r: &ProductRelease)
        ensures
            r@ == self@.source_release,
    {
        &self.source_release
    }

    pub fn target_release(&self) -> (r: &ProductRelease)
        ensures
            r@ == self@.target_release,
    {
        &self.target_release
    }

    pub fn source_schema_version(&self) -> (r: Option<i64>)
        ensures
            r == self@.source_schema_version,
    {
        self.source_schema_version
    }

    pub fn target_schema_version(&self) -> (r: i64)
        ensures
            r == self@.target_schema_version,
    {
        self.target_schema_version
    }

    pub fn failure_code(&self) -> (r: Option<UpgradeFailureCode>)
        ensures
            r == self@.failure_code,
    {
        self.failure_code
    }

    pub fn failure_after_state(&self) -> (r: Option<UpgradeState>)
        ensures
            r == self@.failure_after_state,
    {
        self.failure_after_state
    }

    pub fn manual_recovery_required(&self) -> (r: bool)
        ensures
            r == self@.manual_recovery_required,
    {
        self.manual_recovery_required
    }

    pub fn artifacts(&self) -> (r: &[UpgradeArtifactIdentity])
        ensures
            artifact_views(r@) == self@.artifacts,
    {
        self.artifacts.as_slice()
    }

    /// Records the identity of an artifact in its slot, keeping slot order. Refused
    /// when the receipt is terminal, the slot is taken, the identity is not private,
    /// or the result fails validation; a refusal leaves the receipt unchanged.
    pub fn record_artifact(&mut self, artifact: UpgradeArtifactIdentity) -> (r: Result<
        (),
        UpgradeReceiptError,
    >)
        requires
            old(self)@.wf(),
        ensures
            r == old(self)@.record_result(artifact@),
            r is Ok ==> final(self)@ == old(self)@.with_artifacts(
                insert_stable(old(self)@.artifacts, artifact@),
            ),
            r is Err ==> final(self)@ == old(self)@,
            final(self)@.wf(),
            r is Ok ==> UpgradeReceiptView::can_replace(final(self)@, old(self)@),
    {
        let ghost v = self@;
        if self.state.is_terminal() {
            return Err(
                UpgradeReceiptError::invalid(
                    UpgradeReceiptField::State,
                    UpgradeReceiptReason::TerminalCannotRecord,
                ),
            );
        }
        if self.has_slot(artifact.slot()) {
            return Err(
                UpgradeReceiptError::invalid(
                    UpgradeReceiptField::Artifacts,
                    UpgradeReceiptReason::SlotAlreadyRecorded,
                ),
            );
        }
        match artifact.validate() {
            Err(e) => return Err(e),
            Ok(()) => {},
        }
        let ghost s = v.artifacts;
        let ghost e = artifact@;
        proof {
            lemma_wf_sorted(v);
        }
        let p = stable_insertion_point(&self.artifacts, artifact.slot());
        proof {
            lemma_insert_stable_at(s, e, p as int);
        }
        self.artifacts.insert(p, artifact);
        proof {
            assert(artifact_views(self.artifacts@) =~= s.insert(p as int, e));
            assert(self@ == v.with_artifacts(insert_stable(s, e)));
        }
        let checked = self.validate();
        match checked {
            Err(err) => {
                let _ = self.artifacts.remove(p);
                proof {
                    assert(artifact_views(self.artifacts@) =~= s);
                    assert(self@ == v);
                }
                Err(err)
            },
            Ok(()) => {
                proof {
                    lemma_insert_append_only(s, e, p as int);
                    lemma_unit_ok(checked);
                }
                Ok(())
            },
        }
    }

    /// Takes one step on the normal path, provided the next state's evidence is recorded.
    pub fn advance(&mut self, next: UpgradeState) -> (r: Result<(), UpgradeReceiptError>)
        requires
            old(self)@.wf(),
        ensures
            r == old(self)@.advance_result(next),
            r is Ok ==> final(self)@ == old(self)@.with_state(next),
            r is Err ==> final(self)@ == old(self)@,
            final(self)@.wf(),
            r is Ok ==> UpgradeReceiptView::can_replace(final(self)@, old(self)@),
    {
        let ghost v = self@;
        if !is_normal_successor(self.state, next) {
            return Err(
                UpgradeReceiptError::invalid(
                    UpgradeReceiptField::State,
                    UpgradeReceiptReason::TransitionNotAllowed,
                ),
            );
        }
        let previous_state = self.state;
        self.state = next;
        assert(self@ == v.with_state(next));
        let checked = self.validate();
        match checked {
            Ok(()) => {
                proof {
                    lemma_append_only_reflexive(v.artifacts);
                    lemma_unit_ok(checked);
                }
                Ok(())
            },
            Err(e) => {
                self.state = previous_state;
                assert(self@ == v);
                Err(e)
            },
        }
    }

    /// Ends a pre-switch operation with the original data preserved.
    pub fn abort_preserved(&mut self, failure_code: UpgradeFailureCode, manual_recovery_required: bool) -> (r:
        Result<(), UpgradeReceiptError>)
        requires
            old(self)@.wf(),
        ensures
            r == old(self)@.abort_result(failure_code, manual_recovery_required),
            r is Ok ==> final(self)@ == old(self)@.aborted(failure_code, manual_recovery_required),
            r is Err ==> final(self)@ == old(self)@,
            final(self)@.wf(),
            r is Ok ==> UpgradeReceiptView::can_replace(final(self)@, old(self)@),
    {
        let ghost v = self@;
        if !self.state.is_pre_switch() {
            return Err(
                UpgradeReceiptError::invalid(
                    UpgradeReceiptField::State,
                    UpgradeReceiptReason::AbortRequiresPreSwitch,
                ),
            );
        }
        let previous_state = self.state;
        let previous_failure_code = self.failure_code;
        let previous_failure_after_state = self.failure_after_state;
        let previous_manual = self.manual_recovery_required;
        self.state = UpgradeState::AbortedPreserved;
        self.failure_code = Some(failure_code);
        self.failure_after_state = Some(previous_state);
        self.manual_recovery_required = manual_recovery_required;
        assert(self@ == v.aborted(failure_code, manual_recovery_required));
        let checked = self.validate();
        match checked {
            Ok(()) => {
                proof {
                    lemma_append_only_reflexive(v.artifacts);
                    lemma_unit_ok(checked);
                }
                Ok(())
            },
            Err(e) => {
                self.state = previous_state;
                self.failure_code = previous_failure_code;
                self.failure_after_state = previous_failure_after_state;
                self.manual_recovery_required = previous_manual;
                assert(self@ == v);
                Err(e)
            },
        }
    }

    /// Records a failure after the candidate was switched in; the original data must
    /// be restored, and manual recovery is required until it is.
    pub fn require_rollback(&mut self, failure_code: UpgradeFailureCode) -> (r: Result<
        (),
        UpgradeReceiptError,
    >)
        requires
            old(self)@.wf(),
        ensures
            r == old(self)@.rollback_result(failure_code),
            r is Ok ==> final(self)@ == old(self)@.rollback_required(failure_code),
            r is Err ==> final(self)@ == old(self)@,
            final(self)@.wf(),
            r is Ok ==> UpgradeReceiptView::can_replace(final(self)@, old(self)@),
    {
        let ghost v = self@;
        if !matches!(self.state, UpgradeState::Switched | UpgradeState::PostSwitchVerified) {
            return Err(
                UpgradeReceiptError::invalid(
                    UpgradeReceiptField::State,
                    UpgradeReceiptReason::RollbackRequiresSwitch,
                ),
            );
        }
        let previous_state = self.state;
        let previous_failure_code = self.failure_code;
        let previous_failure_after_state = self.failure_after_state;
        let previous_manual = self.manual_recovery_required;
        self.state = UpgradeState::RollbackRequired;
        self.failure_code = Some(failure_code);
        self.failure_after_state = Some(previous_state);
        self.manual_recovery_required = true;
        assert(self@ == v.rollback_required(failure_code));
        let checked = self.validate();
        match checked {
            Ok(()) => {
                proof {
                    lemma_append_only_reflexive(v.artifacts);
                    lemma_unit_ok(checked);
                }
                Ok(())
            },
            Err(e) => {
                self.state = previous_state;
                self.failure_code = previous_failure_code;
                self.failure_after_state = previous_failure_after_state;
                self.manual_recovery_required = previous_manual;
                assert(self@ == v);
                Err(e)
            },
        }
    }

    /// Finishes a rollback: the original data is active again and the recovery gate clears.
    pub fn mark_rolled_back(&mut self) -> (r: Result<(), UpgradeReceiptError>)
        requires
            old(self)@.wf(),
        ensures
            r == old(self)@.rolled_back_result(),
            r is Ok ==> final(self)@ == old(self)@.rolled_back(),
            r is Err ==> final(self)@ == old(self)@,
            final(self)@.wf(),
            r is Ok ==> UpgradeReceiptView::can_replace(final(self)@, old(self)@),
    {
        let ghost v = self@;
        if self.state != UpgradeState::RollbackRequired {
            return Err(
                UpgradeReceiptError::invalid(
                    UpgradeReceiptField::State,
                    UpgradeReceiptReason::FinishRequiresRollbackRequired,
                ),
            );
        }
        let previous_manual = self.manual_recovery_required;
        self.state = UpgradeState::RolledBack;
        self.manual_recovery_required = false;
        assert(self@ == v.rolled_back());
        let checked = self.validate();
        match checked {
            Ok(()) => {
                proof {
                    lemma_append_only_reflexive(v.artifacts);
                    lemma_unit_ok(checked);
                }
                Ok(())
            },
            Err(e) => {
                self.state = UpgradeState::RollbackRequired;
                self.manual_recovery_required = previous_manual;
                assert(self@ == v);
                Err(e)
            },
        }
    }

    /// Whether this receipt may be persisted in place of `previous`.
    pub fn can_replace(&self, previous: &Self) -> (r: bool)
        ensures
            r == UpgradeReceiptView::can_replace(self@, previous@),
    {
        let immutable_fields_match = same_text(self.receipt_format.as_str(), previous.receipt_format.as_str())
            && same_text(self.operation_id.as_str(), previous.operation_id.as_str()) && same_optional_text(
            &self.previous_operation_id,
            &previous.previous_operation_id,
        ) && self.data_layout == previous.data_layout && self.source_release.same_as(&previous.source_release)
            && self.target_release.same_as(&previous.target_release) && same_optional_schema(
            self.source_schema_version,
            previous.source_schema_version,
        ) && self.target_schema_version == previous.target_schema_version;
        if !immutable_fields_match || self.validate().is_err() || previous.validate().is_err() {
            return false;
        }
        if !artifacts_are_append_only(&previous.artifacts, &self.artifacts) {
            return false;
        }
        if self.state == previous.state {
            return !self.state.is_terminal() && same_failure_code(self.failure_code, previous.failure_code)
                && same_optional_state(self.failure_after_state, previous.failure_after_state)
                && self.manual_recovery_required == previous.manual_recovery_required;
        }
        is_normal_successor(previous.state, self.state) || (previous.state.is_pre_switch() && self.state
            == UpgradeState::AbortedPreserved && same_optional_state(
            self.failure_after_state,
            Some(previous.state),
        )) || (matches!(previous.state, UpgradeState::Switched | UpgradeState::PostSwitchVerified)
            && self.state == UpgradeState::RollbackRequired) || (previous.state
            == UpgradeState::RollbackRequired && self.state == UpgradeState::RolledBack)
    }
}

/// The framing every encoded upgrade receipt has: not empty, at most
/// `MAX_UPGRADE_RECEIPT_BYTES` long, and ending in one newline.
pub open spec fn upgrade_frame_check(bytes: Seq<u8>) -> Result<(), UpgradeReceiptError> {
    if bytes.len() == 0 || bytes.len() > MAX_UPGRADE_RECEIPT_BYTES {
        Err(upgrade_error(UpgradeReceiptField::Receipt, UpgradeReceiptReason::SizeOutOfRange))
    } else if bytes.last() != 10u8 {
        Err(upgrade_error(UpgradeReceiptField::Receipt, UpgradeReceiptReason::MissingNewline))
    } else {
        Ok(())
    }
}

/// Checks the framing of receipt bytes before they are parsed.
pub fn check_upgrade_receipt_frame(bytes: &[u8]) -> (r: Result<(), UpgradeReceiptError>)
    ensures
        r == upgrade_frame_check(bytes@),
{
    if bytes.len() == 0 || bytes.len() > MAX_UPGRADE_RECEIPT_BYTES {
        return Err(
            UpgradeReceiptError::invalid(UpgradeReceiptField::Receipt, UpgradeReceiptReason::SizeOutOfRange),
        );
    }
    if bytes[bytes.len() - 1] != 10u8 {
        return Err(
            UpgradeReceiptError::invalid(UpgradeReceiptField::Receipt, UpgradeReceiptReason::MissingNewline),
        );
    }
    Ok(())
}


/// Position of a state along every path an upgrade can take: the normal path,
/// then the failure states in the order they are reached.
pub open spec fn upgrade_step_order(state: UpgradeState) -> int {
    match state {
        UpgradeState::AbortedPreserved => 9,
        UpgradeState::RollbackRequired => 9,
        UpgradeState::RolledBack => 10,
        _ => state.normal_rank()->0 as int,
    }
}

/// A replacement never moves back: it moves to a later state, or keeps the state
/// with the same failure fields.
pub proof fn lemma_upgrade_replacement_progresses(next: UpgradeReceiptView, previous: UpgradeReceiptView)
    requires
        UpgradeReceiptView::can_replace(next, previous),
    ensures
        upgrade_step_order(next.state) > upgrade_step_order(previous.state) || (next.state == previous.state
            && next.failure_code == previous.failure_code && next.failure_after_state
            == previous.failure_after_state && next.manual_recovery_required
            == previous.manual_recovery_required),
{
}

/// Two receipts that can each replace the other are in the same state with the
/// same failure fields, and each holds every artifact of the other.
pub proof fn lemma_upgrade_mutual_replacement_keeps_state(a: UpgradeReceiptView, b: UpgradeReceiptView)
    requires
        UpgradeReceiptView::can_replace(a, b),
        UpgradeReceiptView::can_replace(b, a),
    ensures
        a.state == b.state,
        a.failure_code == b.failure_code,
        a.failure_after_state == b.failure_after_state,
        a.manual_recovery_required == b.manual_recovery_required,
        append_only(a.artifacts, b.artifacts),
        append_only(b.artifacts, a.artifacts),
{
    lemma_upgrade_replacement_progresses(a, b);
    lemma_upgrade_replacement_progresses(b, a);
}

/// A terminal receipt can be replaced by nothing.
pub proof fn lemma_upgrade_terminal_receipt_is_closed(next: UpgradeReceiptView, previous: UpgradeReceiptView)
    requires
        previous.state.terminal(),
    ensures
        !UpgradeReceiptView::can_replace(next, previous),
{
}

/// A well-formed receipt holds the evidence its progress requires: the data root,
/// the source database exactly when a source schema is named, and the snapshot,
/// candidate and backup databases from the states that create them on (for a
/// failed receipt, from the state it failed after).
pub proof fn lemma_upgrade_state_has_required_evidence(v: UpgradeReceiptView)
    requires
        v.wf(),
    ensures
        v.has(UpgradeArtifactSlot::DataRoot),
        v.source_schema_version is Some <==> v.has(UpgradeArtifactSlot::SourceDatabase),
        ({
            let evidence_state = match v.failure_after_state {
                Some(s) => s,
                None => v.state,
            };
            &&& state_at_least_spec(evidence_state, UpgradeState::SnapshotReady) ==> v.has(
                UpgradeArtifactSlot::SnapshotDatabase,
            )
            &&& state_at_least_spec(evidence_state, UpgradeState::CandidateMigrated) ==> v.has(
                UpgradeArtifactSlot::CandidateDatabase,
            )
            &&& state_at_least_spec(evidence_state, UpgradeState::SwitchPrepared) ==> v.has(
                UpgradeArtifactSlot::BackupDatabase,
            )
        }),
        !(v.state is Preflighted || v.state is Quiesced) ==> (v.has(UpgradeArtifactSlot::SourceSettings)
            <==> v.has(UpgradeArtifactSlot::BackupSettings)),
{
    reveal(UpgradeReceiptView::validation);
}

/// A well-formed receipt carries failure fields exactly in the failure states, and
/// asks for manual recovery only while a rollback is required or when an abort said so.
pub proof fn lemma_upgrade_failure_fields(v: UpgradeReceiptView)
    requires
        v.wf(),
    ensures
        (v.state is AbortedPreserved || v.state is RollbackRequired || v.state is RolledBack) <==> v.failure_code is Some,
        v.failure_code is Some <==> v.failure_after_state is Some,
        v.state is RollbackRequired ==> v.manual_recovery_required,
        v.state is RolledBack ==> !v.manual_recovery_required,
        v.manual_recovery_required ==> (v.state is RollbackRequired || v.state is AbortedPreserved),
{
    reveal(UpgradeReceiptView::validation);
}


fn same_artifact_lists(a: &Vec<UpgradeArtifactIdentity>, b: &Vec<UpgradeArtifactIdentity>) -> (r: bool)
    ensures
        r == (artifact_views(a@) == artifact_views(b@)),
{
    if a.len() != b.len() {
        return false;
    }
    let ghost x = artifact_views(a@);
    let ghost y = artifact_views(b@);
    let mut i: usize = 0;
    while i < a.len()
        invariant
            a@.len() == b@.len(),
            i <= a@.len(),
            x == artifact_views(a@),
            y == artifact_views(b@),
            forall|k: int| 0 <= k < i ==> x[k] == y[k],
        decreases a@.len() - i,
    {
        if a[i] != b[i] {
            assert(x[i as int] != y[i as int]);
            return false;
        }
        i = i + 1;
    }
    assert(x =~= y);
    true
}

impl UpgradeReceipt {
    /// Whether two receipts hold the same values.
    pub fn same_as(&self, other: &Self) -> (r: bool)
        ensures
            r == (self@ == other@),
    {
        same_text(self.receipt_format.as_str(), other.receipt_format.as_str()) && same_text(
            self.operation_id.as_str(),
            other.operation_id.as_str(),
        ) && same_optional_text(&self.previous_operation_id, &other.previous_operation_id)
            && self.data_layout == other.data_layout && self.source_release.same_as(&other.source_release)
            && self.target_release.same_as(&other.target_release) && same_optional_schema(
            self.source_schema_version,
            other.source_schema_version,
        ) && self.target_schema_version == other.target_schema_version && self.state == other.state
            && same_failure_code(self.failure_code, other.failure_code) && same_optional_state(
            self.failure_after_state,
            other.failure_after_state,
        ) && self.manual_recovery_required == other.manual_recovery_required && same_artifact_lists(
            &self.artifacts,
            &other.artifacts,
        )
    }
}


impl UpgradeReceipt {
    /// A receipt read back from storage, accepted only if it passes every check.
    pub fn from_parts(
        receipt_format: String,
        operation_id: String,
        previous_operation_id: Option<String>,
        data_layout: DataLayout,
        source_release: ProductRelease,
        target_release: ProductRelease,
        source_schema_version: Option<i64>,
        target_schema_version: i64,
        state: UpgradeState,
        failure_code: Option<UpgradeFailureCode>,
        failure_after_state: Option<UpgradeState>,
        manual_recovery_required: bool,
        artifacts: Vec<UpgradeArtifactIdentity>,
    ) -> (r: Result<Self, UpgradeReceiptError>)
        ensures
            ({
                let v = UpgradeReceiptView {
                    receipt_format: receipt_format@,
                    operation_id: operation_id@,
                    previous_operation_id: option_text_view(previous_operation_id),
                    data_layout,
                    source_release: source_release@,
                    target_release: target_release@,
                    source_schema_version,
                    target_schema_version,
                    state,
                    failure_code,
                    failure_after_state,
                    manual_recovery_required,
                    artifacts: artifact_views(artifacts@),
                };
                match r {
                    Ok(receipt) => receipt@ == v && v.wf(),
                    Err(e) => v.validation() == Err::<(), UpgradeReceiptError>(e),
                }
            }),
    {
        let receipt = UpgradeReceipt {
            receipt_format,
            operation_id,
            previous_operation_id,
            data_layout,
            source_release,
            target_release,
            source_schema_version,
            target_schema_version,
            state,
            failure_code,
            failure_after_state,
            manual_recovery_required,
            artifacts,
        };
        match receipt.validate() {
            Ok(()) => Ok(receipt),
            Err(e) => Err(e),
        }
    }

    pub fn receipt_format(&self) -> (r: &str)
        ensures
            r@ == self@.receipt_format,
    {
        self.receipt_format.as_str()
    }
}

} // verus!

//! Product, program and root identities recorded by an install receipt.

use vstd::prelude::*;

use crate::text::{
    is_lower_hex_of_len, is_valid_bundle_id, lower_hex_of_len, parse_version, parsed_version,
    same_text, valid_bundle_id,
};

verus! {

/// Format tag of every install receipt.
pub const INSTALL_RECEIPT_FORMAT: &'static str = "radishlex-product-install-receipt-v1";

/// The only product that install receipts accept.
pub const INSTALL_PRODUCT_ID: &'static str = "radishlex-macos";

/// Largest accepted encoded install receipt, newline included.
pub const MAX_INSTALL_RECEIPT_BYTES: usize = 65536;

/// The receipt field that a validation error concerns.
#[derive(Debug, Clone, Copy, PartialEq, Eq, Structural)]
pub enum InstallReceiptField {
    Release,
    RunningProgram,
    ProductIdentity,
    BundleIdentity,
    BundleTreeSha256,
    CodeIdentitySha256,
    ProductManifestSha256,
    RootIdentity,
    ProgramFilesystemIdentity,
    ArtifactEvidence,
    Artifacts,
    State,
    ReceiptFormat,
    OperationId,
    PreviousOperationId,
    OperationProducts,
    Failure,
    Receipt,
}

impl InstallReceiptField {
    /// The field's name as it appears in the receipt.
    pub open spec fn name_spec(self) -> &'static str {
        match self {
            InstallReceiptField::Release => "release",
            InstallReceiptField::RunningProgram => "running_program",
            InstallReceiptField::ProductIdentity => "product_identity",
            InstallReceiptField::BundleIdentity => "bundle_identity",
            InstallReceiptField::BundleTreeSha256 => "bundle_tree_sha256",
            InstallReceiptField::CodeIdentitySha256 => "code_identity_sha256",
            InstallReceiptField::ProductManifestSha256 => "product_manifest_sha256",
            InstallReceiptField::RootIdentity => "root_identity",
            InstallReceiptField::ProgramFilesystemIdentity => "program_filesystem_identity",
            InstallReceiptField::ArtifactEvidence => "artifact_evidence",
            InstallReceiptField::Artifacts => "artifacts",
            InstallReceiptField::State => "state",
            InstallReceiptField::ReceiptFormat => "receipt_format",
            InstallReceiptField::OperationId => "operation_id",
            InstallReceiptField::PreviousOperationId => "previous_operation_id",
            InstallReceiptField::OperationProducts => "operation_products",
            InstallReceiptField::Failure => "failure",
            InstallReceiptField::Receipt => "receipt",
        }
    }

    /// The field's name as it appears in the receipt.
    pub fn name(self) -> (r: &'static str)
        ensures
            r == self.name_spec(),
    {
        match self {
            InstallReceiptField::Release => "release",
            InstallReceiptField::RunningProgram => "running_program",
            InstallReceiptField::ProductIdentity => "product_identity",
            InstallReceiptField::BundleIdentity => "bundle_identity",
            InstallReceiptField::BundleTreeSha256 => "bundle_tree_sha256",
            InstallReceiptField::CodeIdentitySha256 => "code_identity_sha256",
            InstallReceiptField::ProductManifestSha256 => "product_manifest_sha256",
            InstallReceiptField::RootIdentity => "root_identity",
            InstallReceiptField::ProgramFilesystemIdentity => "program_filesystem_identity",
            InstallReceiptField::ArtifactEvidence => "artifact_evidence",
            InstallReceiptField::Artifacts => "artifacts",
            InstallReceiptField::State => "state",
            InstallReceiptField::ReceiptFormat => "receipt_format",
            InstallReceiptField::OperationId => "operation_id",
            InstallReceiptField::PreviousOperationId => "previous_operation_id",
            InstallReceiptField::OperationProducts => "operation_products",
            InstallReceiptField::Failure => "failure",
            InstallReceiptField::Receipt => "receipt",
        }
    }
}

/// Why a receipt value was refused.
#[derive(Debug, Clone, Copy, PartialEq, Eq, Structural)]
pub enum InstallReceiptReason {
    VersionNotNumeric,
    BuildNumberZero,
    BundleIdInvalid,
    Sha256Invalid,
    ProductIdDiffers,
    ComponentsInconsistent,
    RootIdentityInvalid,
    ProgramFilesystemIdentityInvalid,
    SlotComponentDiffers,
    SlotAlreadyRecorded,
    ArtifactRoleUnavailable,
    ArtifactIdentityDiffers,
    ArtifactStateNotAllowed,
    TransitionNotAllowed,
    ProgramChangesRequireRollback,
    RollbackRequiresCommittedChange,
    RestoreRequiresRollbackRequired,
    RollbackCompletionRequiresRestored,
    UnsupportedFormat,
    OperationIdNotHex,
    PreviousOperationSame,
    UpgradeTargetNotHigher,
    RepairReleaseDiffers,
    ProductsDoNotMatchKind,
    ArtifactsNotSortedUnique,
    SourceEvidenceIncomplete,
    TargetStagingIncomplete,
    SourcePreservationIncomplete,
    InstalledManagerMissing,
    InstalledInputMethodMissing,
    FilesystemIdentityChanged,
    NoOperationProgress,
    ArtifactBeforeStage,
    AbortedFailureInconsistent,
    RollbackFailureInconsistent,
    RolledBackFailureInconsistent,
    NormalStateHasFailure,
    NotOpenForMutation,
    BytesNotCanonical,
    JsonInvalid,
    CannotEncode,
    SizeLimitExceeded,
}

impl InstallReceiptReason {
    /// A sentence describing the refusal.
    pub open spec fn message_spec(self) -> &'static str {
        match self {
            InstallReceiptReason::VersionNotNumeric => "product version must use numeric major.minor.patch",
            InstallReceiptReason::BuildNumberZero => "build number must be positive",
            InstallReceiptReason::BundleIdInvalid => "bundle ID is invalid",
            InstallReceiptReason::Sha256Invalid => "SHA-256 must be 64 lowercase hexadecimal characters",
            InstallReceiptReason::ProductIdDiffers => "product ID differs from the accepted macOS product",
            InstallReceiptReason::ComponentsInconsistent => "program component identities are inconsistent",
            InstallReceiptReason::RootIdentityInvalid => "install root identity requires a positive inode and mode 0700",
            InstallReceiptReason::ProgramFilesystemIdentityInvalid => "program filesystem identity requires a positive inode and mode 0700 or 0755",
            InstallReceiptReason::SlotComponentDiffers => "artifact slot and component differ",
            InstallReceiptReason::SlotAlreadyRecorded => "artifact slot is already recorded",
            InstallReceiptReason::ArtifactRoleUnavailable => "artifact role is unavailable for operation",
            InstallReceiptReason::ArtifactIdentityDiffers => "artifact identity differs from operation product",
            InstallReceiptReason::ArtifactStateNotAllowed => "artifact cannot be recorded in current state",
            InstallReceiptReason::TransitionNotAllowed => "install state transition is not allowed",
            InstallReceiptReason::ProgramChangesRequireRollback => "program changes require rollback",
            InstallReceiptReason::RollbackRequiresCommittedChange => "rollback requires a committed program change",
            InstallReceiptReason::RestoreRequiresRollbackRequired => "program restore requires rollback_required",
            InstallReceiptReason::RollbackCompletionRequiresRestored => "rollback completion requires restored programs",
            InstallReceiptReason::UnsupportedFormat => "unsupported install receipt format",
            InstallReceiptReason::OperationIdNotHex => "operation ID must be 32 lowercase hexadecimal characters",
            InstallReceiptReason::PreviousOperationSame => "previous operation must differ",
            InstallReceiptReason::UpgradeTargetNotHigher => "upgrade target must be a compatible higher release",
            InstallReceiptReason::RepairReleaseDiffers => "repair requires compatible products at the same release",
            InstallReceiptReason::ProductsDoNotMatchKind => "source and target do not match operation kind",
            InstallReceiptReason::ArtifactsNotSortedUnique => "artifact evidence must be unique and sorted",
            InstallReceiptReason::SourceEvidenceIncomplete => "source program evidence is incomplete",
            InstallReceiptReason::TargetStagingIncomplete => "target staging evidence is incomplete",
            InstallReceiptReason::SourcePreservationIncomplete => "source preservation evidence is incomplete",
            InstallReceiptReason::InstalledManagerMissing => "installed Manager evidence is missing",
            InstallReceiptReason::InstalledInputMethodMissing => "installed InputMethod evidence is missing",
            InstallReceiptReason::FilesystemIdentityChanged => "renamed artifact filesystem identity changed",
            InstallReceiptReason::NoOperationProgress => "install state has no operation progress",
            InstallReceiptReason::ArtifactBeforeStage => "artifact evidence appears before its operation stage",
            InstallReceiptReason::AbortedFailureInconsistent => "aborted receipt failure fields are inconsistent",
            InstallReceiptReason::RollbackFailureInconsistent => "rollback receipt failure fields are inconsistent",
            InstallReceiptReason::RolledBackFailureInconsistent => "rolled back receipt failure fields are inconsistent",
            InstallReceiptReason::NormalStateHasFailure => "normal receipt must not contain failure fields",
            InstallReceiptReason::NotOpenForMutation => "install receipt is not open for normal mutation",
            InstallReceiptReason::BytesNotCanonical => "receipt bytes are not canonical",
            InstallReceiptReason::JsonInvalid => "receipt JSON is invalid",
            InstallReceiptReason::CannotEncode => "cannot encode receipt",
            InstallReceiptReason::SizeLimitExceeded => "receipt exceeds size limit",
        }
    }

    /// A sentence describing the refusal.
    pub fn message(self) -> (r: &'static str)
        ensures
            r == self.message_spec(),
    {
        match self {
            InstallReceiptReason::VersionNotNumeric => "product version must use numeric major.minor.patch",
            InstallReceiptReason::BuildNumberZero => "build number must be positive",
            InstallReceiptReason::BundleIdInvalid => "bundle ID is invalid",
            InstallReceiptReason::Sha256Invalid => "SHA-256 must be 64 lowercase hexadecimal characters",
            InstallReceiptReason::ProductIdDiffers => "product ID differs from the accepted macOS product",
            InstallReceiptReason::ComponentsInconsistent => "program component identities are inconsistent",
            InstallReceiptReason::RootIdentityInvalid => "install root identity requires a positive inode and mode 0700",
            InstallReceiptReason::ProgramFilesystemIdentityInvalid => "program filesystem identity requires a positive inode and mode 0700 or 0755",
            InstallReceiptReason::SlotComponentDiffers => "artifact slot and component differ",
            InstallReceiptReason::SlotAlreadyRecorded => "artifact slot is already recorded",
            InstallReceiptReason::ArtifactRoleUnavailable => "artifact role is unavailable for operation",
            InstallReceiptReason::ArtifactIdentityDiffers => "artifact identity differs from operation product",
            InstallReceiptReason::ArtifactStateNotAllowed => "artifact cannot be recorded in current state",
            InstallReceiptReason::TransitionNotAllowed => "install state transition is not allowed",
            InstallReceiptReason::ProgramChangesRequireRollback => "program changes require rollback",
            InstallReceiptReason::RollbackRequiresCommittedChange => "rollback requires a committed program change",
            InstallReceiptReason::RestoreRequiresRollbackRequired => "program restore requires rollback_required",
            InstallReceiptReason::RollbackCompletionRequiresRestored => "rollback completion requires restored programs",
            InstallReceiptReason::UnsupportedFormat => "unsupported install receipt format",
            InstallReceiptReason::OperationIdNotHex => "operation ID must be 32 lowercase hexadecimal characters",
            InstallReceiptReason::PreviousOperationSame => "previous operation must differ",
            InstallReceiptReason::UpgradeTargetNotHigher => "upgrade target must be a compatible higher release",
            InstallReceiptReason::RepairReleaseDiffers => "repair requires compatible products at the same release",
            InstallReceiptReason::ProductsDoNotMatchKind => "source and target do not match operation kind",
            InstallReceiptReason::ArtifactsNotSortedUnique => "artifact evidence must be unique and sorted",
            InstallReceiptReason::SourceEvidenceIncomplete => "source program evidence is incomplete",
            InstallReceiptReason::TargetStagingIncomplete => "target staging evidence is incomplete",
            InstallReceiptReason::SourcePreservationIncomplete => "source preservation evidence is incomplete",
            InstallReceiptReason::InstalledManagerMissing => "installed Manager evidence is missing",
            InstallReceiptReason::InstalledInputMethodMissing => "installed InputMethod evidence is missing",
            InstallReceiptReason::FilesystemIdentityChanged => "renamed artifact filesystem identity changed",
            InstallReceiptReason::NoOperationProgress => "install state has no operation progress",
            InstallReceiptReason::ArtifactBeforeStage => "artifact evidence appears before its operation stage",
            InstallReceiptReason::AbortedFailureInconsistent => "aborted receipt failure fields are inconsistent",
            InstallReceiptReason::RollbackFailureInconsistent => "rollback receipt failure fields are inconsistent",
            InstallReceiptReason::RolledBackFailureInconsistent => "rolled back receipt failure fields are inconsistent",
            InstallReceiptReason::NormalStateHasFailure => "normal receipt must not contain failure fields",
            InstallReceiptReason::NotOpenForMutation => "install receipt is not open for normal mutation",
            InstallReceiptReason::BytesNotCanonical => "receipt bytes are not canonical",
            InstallReceiptReason::JsonInvalid => "receipt JSON is invalid",
            InstallReceiptReason::CannotEncode => "cannot encode receipt",
            InstallReceiptReason::SizeLimitExceeded => "receipt exceeds size limit",
        }
    }
}

/// A refused install receipt value: the field concerned and the reason.
#[derive(Debug, Clone, Copy, PartialEq, Eq, Structural)]
pub struct InstallReceiptError {
    pub field: InstallReceiptField,
    pub reason: InstallReceiptReason,
}

pub open spec fn install_error(
    field: InstallReceiptField,
    reason: InstallReceiptReason,
) -> InstallReceiptError {
    InstallReceiptError { field, reason }
}

/// The first refusal of two checks made in order.
pub open spec fn then_check(
    first: Result<(), InstallReceiptError>,
    second: Result<(), InstallReceiptError>,
) -> Result<(), InstallReceiptError> {
    if first is Err {
        first
    } else {
        second
    }
}

impl InstallReceiptError {
    pub fn invalid(field: InstallReceiptField, reason: InstallReceiptReason) -> (r: Self)
        ensures
            r == install_error(field, reason),
    {
        InstallReceiptError { field, reason }
    }

    /// The name of the field concerned.
    pub fn field(&self) -> (r: &'static str)
        ensures
            r == self.field.name_spec(),
    {
        self.field.name()
    }

    /// A sentence describing the refusal.
    pub fn message(&self) -> (r: &'static str)
        ensures
            r == self.reason.message_spec(),
    {
        self.reason.message()
    }
}

#[derive(Debug, Clone, Copy, PartialEq, Eq, Structural)]
pub enum InstallOperationKind {
    FirstInstall,
    Upgrade,
    Repair,
    RemovePrograms,
}

#[derive(Debug, Clone, Copy, PartialEq, Eq, Structural)]
pub enum InstallState {
    Prepared,
    Quiesced,
    TargetStaged,
    SourcePreserved,
    ManagerCommitted,
    ProgramsCommitted,
    DataCoordinating,
    DataSettled,
    FinalVerified,
    Completed,
    AbortedPreserved,
    RollbackRequired,
    ProgramsRestored,
    RolledBack,
}

impl InstallState {
    /// A state after which the operation takes no further step.
    pub open spec fn terminal(self) -> bool {
        self is Completed || self is AbortedPreserved || self is RolledBack
    }

    /// A state in which no program has been replaced yet.
    pub open spec fn before_program_commit(self) -> bool {
        self is Prepared || self is Quiesced || self is TargetStaged || self is SourcePreserved
    }

    /// A state in which a committed program change must be undone on failure.
    pub open spec fn needs_program_rollback(self) -> bool {
        self is ManagerCommitted || self is ProgramsCommitted || self is DataCoordinating
            || self is DataSettled || self is FinalVerified
    }

    pub fn is_terminal(self) -> (r: bool)
        ensures
            r == self.terminal(),
    {
        matches!(self, InstallState::Completed | InstallState::AbortedPreserved | InstallState::RolledBack)
    }

    pub fn is_before_program_commit(self) -> (r: bool)
        ensures
            r == self.before_program_commit(),
    {
        matches!(
            self,
            InstallState::Prepared | InstallState::Quiesced | InstallState::TargetStaged
                | InstallState::SourcePreserved
        )
    }

    pub fn requires_program_rollback(self) -> (r: bool)
        ensures
            r == self.needs_program_rollback(),
    {
        matches!(
            self,
            InstallState::ManagerCommitted | InstallState::ProgramsCommitted
                | InstallState::DataCoordinating | InstallState::DataSettled
                | InstallState::FinalVerified
        )
    }
}

#[derive(Debug, Clone, Copy, PartialEq, Eq, Structural)]
pub enum InstallFailureCode {
    UnsupportedReceipt,
    ReceiptInconsistent,
    OperationAlreadyActive,
    UnsafeDataRoot,
    UnexpectedStateObject,
    IdentityChanged,
    ProcessNotQuiescent,
    InsufficientSpace,
    SourceArtifactInvalid,
    TargetArtifactInvalid,
    StagingFailed,
    PreserveFailed,
    ManagerCommitFailed,
    InputMethodCommitFailed,
    DataCoordinationFailed,
    TargetValidationFailed,
    RollbackFailed,
    PermissionDenied,
    Io,
}

#[derive(Debug, Clone, Copy, PartialEq, Eq, PartialOrd, Ord, Structural)]
pub enum ProgramComponent {
    Manager,
    InputMethod,
}

/// The version lexicographically greater, comparing major, minor and patch.
pub open spec fn version_greater(a: (u64, u64, u64), b: (u64, u64, u64)) -> bool {
    a.0 > b.0 || (a.0 == b.0 && (a.1 > b.1 || (a.1 == b.1 && a.2 > b.2)))
}

pub struct ProductReleaseView {
    pub product_version: Seq<char>,
    pub build_number: u64,
}

impl ProductReleaseView {
    /// The release check, reporting a refusal under `field`.
    pub open spec fn check(self, field: InstallReceiptField) -> Result<(), InstallReceiptError> {
        if parsed_version(self.product_version) is None {
            Err(install_error(field, InstallReceiptReason::VersionNotNumeric))
        } else if self.build_number == 0 {
            Err(install_error(field, InstallReceiptReason::BuildNumberZero))
        } else {
            Ok(())
        }
    }

    /// A well-formed release: a numeric version and a positive build number.
    pub open spec fn wf(self) -> bool {
        parsed_version(self.product_version) is Some && self.build_number != 0
    }

    /// `self` is a later release than `other`: a higher version, or the same
    /// version with a higher build number.
    pub open spec fn higher_than(self, other: ProductReleaseView) -> bool {
        let a = parsed_version(self.product_version)->0;
        let b = parsed_version(other.product_version)->0;
        version_greater(a, b) || (a == b && self.build_number > other.build_number)
    }
}

#[derive(Debug, Clone, PartialEq, Eq)]
pub struct ProductRelease {
    product_version: String,
    build_number: u64,
}

impl View for ProductRelease {
    type V = ProductReleaseView;

    closed spec fn view(&self) -> ProductReleaseView {
        ProductReleaseView { product_version: self.product_version@, build_number: self.build_number }
    }
}

impl ProductRelease {
    /// A release with a numeric `major.minor.patch` version and a positive build number.
    pub fn new(product_version: String, build_number: u64) -> (r: Result<
        Self,
        InstallReceiptError,
    >)
        ensures
            match r {
                Ok(release) => release@ == (ProductReleaseView {
                    product_version: product_version@,
                    build_number,
                }) && release@.wf(),
                Err(e) => Err::<(), InstallReceiptError>(e) == (ProductReleaseView {
                    product_version: product_version@,
                    build_number,
                }).check(InstallReceiptField::Release),
            },
            r is Ok <==> (ProductReleaseView { product_version: product_version@, build_number }).wf(),
    {
        let release = ProductRelease { product_version, build_number };
        match release.validate(InstallReceiptField::Release) {
            Ok(()) => Ok(release),
            Err(e) => Err(e),
        }
    }

    pub fn product_version(&self) -> (r: &str)
        ensures
            r@ == self@.product_version,
    {
        self.product_version.as_str()
    }

    pub fn build_number(&self) -> (r: u64)
        ensures
            r == self@.build_number,
    {
        self.build_number
    }

    pub fn validate(&self, field: InstallReceiptField) -> (r: Result<(), InstallReceiptError>)
        ensures
            r == self@.check(field),
    {
        if parse_version(self.product_version.as_str()).is_none() {
            return Err(InstallReceiptError::invalid(field, InstallReceiptReason::VersionNotNumeric));
        }
        if self.build_number == 0 {
            return Err(InstallReceiptError::invalid(field, InstallReceiptReason::BuildNumberZero));
        }
        Ok(())
    }

    pub fn same_as(&self, other: &ProductRelease) -> (r: bool)
        ensures
            r == (self@ == other@),
    {
        self.build_number == other.build_number && self.product_version == other.product_version
    }

    /// Whether `self` is a later release than `other`.
    pub fn is_higher_than(&self, other: &ProductRelease) -> (r: bool)
        requires
            self@.wf(),
            other@.wf(),
        ensures
            r == self@.higher_than(other@),
    {
        let a = parse_version(self.product_version.as_str()).unwrap();
        let b = parse_version(other.product_version.as_str()).unwrap();
        if a.0 != b.0 {
            a.0 > b.0
        } else if a.1 != b.1 {
            a.1 > b.1
        } else if a.2 != b.2 {
            a.2 > b.2
        } else {
            self.build_number > other.build_number
        }
    }
}

pub struct ProgramBundleIdentityView {
    pub component: ProgramComponent,
    pub bundle_id: Seq<char>,
    pub bundle_tree_sha256: Seq<char>,
    pub code_identity_sha256: Seq<char>,
}

/// The check of a 64-character lowercase SHA-256 digest, reported under `field`.
pub open spec fn sha256_check(value: Seq<char>, field: InstallReceiptField) -> Result<
    (),
    InstallReceiptError,
> {
    if lower_hex_of_len(value, 64) {
        Ok(())
    } else {
        Err(install_error(field, InstallReceiptReason::Sha256Invalid))
    }
}

impl ProgramBundleIdentityView {
    pub open spec fn check(self) -> Result<(), InstallReceiptError> {
        if !valid_bundle_id(self.bundle_id) {
            Err(install_error(InstallReceiptField::BundleIdentity, InstallReceiptReason::BundleIdInvalid))
        } else {
            then_check(
                sha256_check(self.bundle_tree_sha256, InstallReceiptField::BundleTreeSha256),
                sha256_check(self.code_identity_sha256, InstallReceiptField::CodeIdentitySha256),
            )
        }
    }

    pub open spec fn wf(self) -> bool {
        self.check() is Ok
    }
}

#[derive(Debug, Clone, PartialEq, Eq)]
pub struct ProgramBundleIdentity {
    component: ProgramComponent,
    bundle_id: String,
    bundle_tree_sha256: String,
    code_identity_sha256: String,
}

impl View for ProgramBundleIdentity {
    type V = ProgramBundleIdentityView;

    closed spec fn view(&self) -> ProgramBundleIdentityView {
        ProgramBundleIdentityView {
            component: self.component,
            bundle_id: self.bundle_id@,
            bundle_tree_sha256: self.bundle_tree_sha256@,
            code_identity_sha256: self.code_identity_sha256@,
        }
    }
}

fn validate_sha256(value: &str, field: InstallReceiptField) -> (r: Result<(), InstallReceiptError>)
    ensures
        r == sha256_check(value@, field),
{
    if is_lower_hex_of_len(value, 64) {
        Ok(())
    } else {
        Err(InstallReceiptError::invalid(field, InstallReceiptReason::Sha256Invalid))
    }
}

impl ProgramBundleIdentity {
    /// A program bundle identity: a reverse-DNS bundle ID and two SHA-256 digests.
    pub fn new(
        component: ProgramComponent,
        bundle_id: String,
        bundle_tree_sha256: String,
        code_identity_sha256: String,
    ) -> (r: Result<Self, InstallReceiptError>)
        ensures
            ({
                let v = ProgramBundleIdentityView {
                    component,
                    bundle_id: bundle_id@,
                    bundle_tree_sha256: bundle_tree_sha256@,
                    code_identity_sha256: code_identity_sha256@,
                };
                match r {
                    Ok(identity) => identity@ == v && v.wf(),
                    Err(e) => v.check() == Err::<(), InstallReceiptError>(e),
                }
            }),
    {
        let identity = ProgramBundleIdentity {
            component,
            bundle_id,
            bundle_tree_sha256,
            code_identity_sha256,
        };
        match identity.validate() {
            Ok(()) => Ok(identity),
            Err(e) => Err(e),
        }
    }

    pub fn component(&self) -> (r: ProgramComponent)
        ensures
            r == self@.component,
    {
        self.component
    }

    pub fn bundle_id(&self) -> (r: &str)
        ensures
            r@ == self@.bundle_id,
    {
        self.bundle_id.as_str()
    }

    pub fn bundle_tree_sha256(&self) -> (r: &str)
        ensures
            r@ == self@.bundle_tree_sha256,
    {
        self.bundle_tree_sha256.as_str()
    }

    pub fn code_identity_sha256(&self) -> (r: &str)
        ensures
            r@ == self@.code_identity_sha256,
    {
        self.code_identity_sha256.as_str()
    }

    pub fn validate(&self) -> (r: Result<(), InstallReceiptError>)
        ensures
            r == self@.check(),
    {
        if !is_valid_bundle_id(self.bundle_id.as_str()) {
            return Err(
                InstallReceiptError::invalid(
                    InstallReceiptField::BundleIdentity,
                    InstallReceiptReason::BundleIdInvalid,
                ),
            );
        }
        match validate_sha256(self.bundle_tree_sha256.as_str(), InstallReceiptField::BundleTreeSha256) {
            Err(e) => Err(e),
            Ok(()) => validate_sha256(
                self.code_identity_sha256.as_str(),
                InstallReceiptField::CodeIdentitySha256,
            ),
        }
    }

    /// A copy with the same identity.
    pub fn duplicate(&self) -> (r: Self)
        ensures
            r@ == self@,
    {
        ProgramBundleIdentity {
            component: self.component,
            bundle_id: self.bundle_id.clone(),
            bundle_tree_sha256: self.bundle_tree_sha256.clone(),
            code_identity_sha256: self.code_identity_sha256.clone(),
        }
    }

    pub fn same_as(&self, other: &ProgramBundleIdentity) -> (r: bool)
        ensures
            r == (self@ == other@),
    {
        self.component == other.component && self.bundle_id == other.bundle_id
            && self.bundle_tree_sha256 == other.bundle_tree_sha256
            && self.code_identity_sha256 == other.code_identity_sha256
    }
}

pub struct ProductArtifactIdentityView {
    pub product_id: Seq<char>,
    pub release: ProductReleaseView,
    pub product_manifest_sha256: Seq<char>,
    pub manager: ProgramBundleIdentityView,
    pub input_method: ProgramBundleIdentityView,
}

impl ProductArtifactIdentityView {
    pub open spec fn program(self, component: ProgramComponent) -> ProgramBundleIdentityView {
        match component {
            ProgramComponent::Manager => self.manager,
            ProgramComponent::InputMethod => self.input_method,
        }
    }

    pub open spec fn check(self) -> Result<(), InstallReceiptError> {
        if self.product_id != INSTALL_PRODUCT_ID@ {
            Err(install_error(InstallReceiptField::ProductIdentity, InstallReceiptReason::ProductIdDiffers))
        } else {
            then_check(
                self.release.check(InstallReceiptField::ProductIdentity),
                then_check(
                    sha256_check(self.product_manifest_sha256, InstallReceiptField::ProductManifestSha256),
                    then_check(
                        self.manager.check(),
                        then_check(
                            self.input_method.check(),
                            if self.manager.component != ProgramComponent::Manager
                                || self.input_method.component != ProgramComponent::InputMethod
                                || self.manager.bundle_id == self.input_method.bundle_id {
                                Err(install_error(
                                    InstallReceiptField::ProductIdentity,
                                    InstallReceiptReason::ComponentsInconsistent,
                                ))
                            } else {
                                Ok(())
                            },
                        ),
                    ),
                ),
            )
        }
    }

    pub open spec fn wf(self) -> bool {
        self.check() is Ok
    }

    /// Same product and the same bundle IDs for both programs.
    pub open spec fn compatible_with(self, other: ProductArtifactIdentityView) -> bool {
        &&& self.product_id == other.product_id
        &&& self.manager.bundle_id == other.manager.bundle_id
        &&& self.input_method.bundle_id == other.input_method.bundle_id
    }
}

#[derive(Debug, Clone, PartialEq, Eq)]
pub struct ProductArtifactIdentity {
    product_id: String,
    release: ProductRelease,
    product_manifest_sha256: String,
    manager: ProgramBundleIdentity,
    input_method: ProgramBundleIdentity,
}

impl View for ProductArtifactIdentity {
    type V = ProductArtifactIdentityView;

    closed spec fn view(&self) -> ProductArtifactIdentityView {
        ProductArtifactIdentityView {
            product_id: self.product_id@,
            release: self.release@,
            product_manifest_sha256: self.product_manifest_sha256@,
            manager: self.manager@,
            input_method: self.input_method@,
        }
    }
}

impl ProductArtifactIdentity {
    /// A product identity: the accepted product ID, a release, the manifest digest
    /// and the two program bundles in their own roles with distinct bundle IDs.
    pub fn new(
        product_id: String,
        release: ProductRelease,
        product_manifest_sha256: String,
        manager: ProgramBundleIdentity,
        input_method: ProgramBundleIdentity,
    ) -> (r: Result<Self, InstallReceiptError>)
        ensures
            ({
                let v = ProductArtifactIdentityView {
                    product_id: product_id@,
                    release: release@,
                    product_manifest_sha256: product_manifest_sha256@,
                    manager: manager@,
                    input_method: input_method@,
                };
                match r {
                    Ok(identity) => identity@ == v && v.wf(),
                    Err(e) => v.check() == Err::<(), InstallReceiptError>(e),
                }
            }),
    {
        let identity = ProductArtifactIdentity {
            product_id,
            release,
            product_manifest_sha256,
            manager,
            input_method,
        };
        match identity.validate() {
            Ok(()) => Ok(identity),
            Err(e) => Err(e),
        }
    }

    pub fn product_id(&self) -> (r: &str)
        ensures
            r@ == self@.product_id,
    {
        self.product_id.as_str()
    }

    pub fn release(&self) -> (r: &ProductRelease)
        ensures
            r@ == self@.release,
    {
        &self.release
    }

    pub fn product_manifest_sha256(&self) -> (r: &str)
        ensures
            r@ == self@.product_manifest_sha256,
    {
        self.product_manifest_sha256.as_str()
    }

    pub fn program(&self, component: ProgramComponent) -> (r: &ProgramBundleIdentity)
        ensures
            r@ == self@.program(component),
    {
        match component {
            ProgramComponent::Manager => &self.manager,
            ProgramComponent::InputMethod => &self.input_method,
        }
    }

    pub fn validate(&self) -> (r: Result<(), InstallReceiptError>)
        ensures
            r == self@.check(),
    {
        if !same_text(self.product_id.as_str(), INSTALL_PRODUCT_ID) {
            return Err(
                InstallReceiptError::invalid(
                    InstallReceiptField::ProductIdentity,
                    InstallReceiptReason::ProductIdDiffers,
                ),
            );
        }
        match self.release.validate(InstallReceiptField::ProductIdentity) {
            Err(e) => return Err(e),
            Ok(()) => {},
        }
        match validate_sha256(
            self.product_manifest_sha256.as_str(),
            InstallReceiptField::ProductManifestSha256,
        ) {
            Err(e) => return Err(e),
            Ok(()) => {},
        }
        match self.manager.validate() {
            Err(e) => return Err(e),
            Ok(()) => {},
        }
        match self.input_method.validate() {
            Err(e) => return Err(e),
            Ok(()) => {},
        }
        if self.manager.component != ProgramComponent::Manager || self.input_method.component
            != ProgramComponent::InputMethod || self.manager.bundle_id
            == self.input_method.bundle_id {
            return Err(
                InstallReceiptError::invalid(
                    InstallReceiptField::ProductIdentity,
                    InstallReceiptReason::ComponentsInconsistent,
                ),
            );
        }
        Ok(())
    }

    pub fn same_as(&self, other: &ProductArtifactIdentity) -> (r: bool)
        ensures
            r == (self@ == other@),
    {
        self.product_id == other.product_id && self.release.same_as(&other.release)
            && self.product_manifest_sha256 == other.product_manifest_sha256
            && self.manager.same_as(&other.manager) && self.input_method.same_as(
            &other.input_method,
        )
    }

    pub fn compatible_with(&self, other: &ProductArtifactIdentity) -> (r: bool)
        ensures
            r == self@.compatible_with(other@),
    {
        self.product_id == other.product_id && self.manager.bundle_id == other.manager.bundle_id
            && self.input_method.bundle_id == other.input_method.bundle_id
    }

    pub fn matches_running(&self, running: &RunningProgramIdentity) -> (r: bool)
        ensures
            r == self@.matches_running(running@),
    {
        self.release.same_as(&running.release) && self.program(running.bundle.component).same_as(
            &running.bundle,
        )
    }
}

pub open spec fn option_product_view(p: Option<ProductArtifactIdentity>) -> Option<
    ProductArtifactIdentityView,
> {
    match p {
        Some(p) => Some(p@),
        None => None,
    }
}

/// Compares two optional products by their views.
pub fn same_optional_product(
    a: &Option<ProductArtifactIdentity>,
    b: &Option<ProductArtifactIdentity>,
) -> (r: bool)
    ensures
        r == (option_product_view(*a) == option_product_view(*b)),
{
    match (a, b) {
        (Some(x), Some(y)) => x.same_as(y),
        (None, None) => true,
        _ => false,
    }
}

pub struct RunningProgramIdentityView {
    pub release: ProductReleaseView,
    pub bundle: ProgramBundleIdentityView,
}

impl ProductArtifactIdentityView {
    /// The running program is this product's release and its bundle for that component.
    pub open spec fn matches_running(self, running: RunningProgramIdentityView) -> bool {
        self.release == running.release && self.program(running.bundle.component) == running.bundle
    }
}

#[derive(Debug, Clone, PartialEq, Eq)]
pub struct RunningProgramIdentity {
    release: ProductRelease,
    bundle: ProgramBundleIdentity,
}

impl View for RunningProgramIdentity {
    type V = RunningProgramIdentityView;

    closed spec fn view(&self) -> RunningProgramIdentityView {
        RunningProgramIdentityView { release: self.release@, bundle: self.bundle@ }
    }
}

impl RunningProgramIdentity {
    /// The identity of a program process that asks to start.
    pub fn new(release: ProductRelease, bundle: ProgramBundleIdentity) -> (r: Result<
        Self,
        InstallReceiptError,
    >)
        ensures
            match r {
                Ok(identity) => identity@ == (RunningProgramIdentityView {
                    release: release@,
                    bundle: bundle@,
                }) && release@.wf() && bundle@.wf(),
                Err(e) => then_check(
                    release@.check(InstallReceiptField::RunningProgram),
                    bundle@.check(),
                ) == Err::<(), InstallReceiptError>(e),
            },
    {
        match release.validate(InstallReceiptField::RunningProgram) {
            Err(e) => return Err(e),
            Ok(()) => {},
        }
        match bundle.validate() {
            Err(e) => return Err(e),
            Ok(()) => {},
        }
        Ok(RunningProgramIdentity { release, bundle })
    }

    pub fn component(&self) -> (r: ProgramComponent)
        ensures
            r == self@.bundle.component,
    {
        self.bundle.component
    }
}

/// The filesystem identity of the install root directory.
#[derive(Debug, Clone, Copy, PartialEq, Eq, Structural)]
pub struct InstallRootIdentity {
    device_id: u64,
    inode: u64,
    owner_id: u32,
    mode: u32,
}

impl InstallRootIdentity {
    pub closed spec fn check(self) -> Result<(), InstallReceiptError> {
        if self.inode == 0 || self.mode != 0o700 {
            Err(install_error(InstallReceiptField::RootIdentity, InstallReceiptReason::RootIdentityInvalid))
        } else {
            Ok(())
        }
    }

    pub closed spec fn device_id_spec(self) -> u64 {
        self.device_id
    }

    pub closed spec fn inode_spec(self) -> u64 {
        self.inode
    }

    pub closed spec fn owner_id_spec(self) -> u32 {
        self.owner_id
    }

    pub closed spec fn mode_spec(self) -> u32 {
        self.mode
    }

    /// A root identity: positive inode and private mode `0700`.
    pub fn new(device_id: u64, inode: u64, owner_id: u32, mode: u32) -> (r: Result<
        Self,
        InstallReceiptError,
    >)
        ensures
            r is Ok <==> (inode != 0 && mode == 0o700),
            r matches Ok(identity) ==> identity.device_id_spec() == device_id
                && identity.inode_spec() == inode && identity.owner_id_spec() == owner_id
                && identity.mode_spec() == mode,
            r matches Err(e) ==> e == install_error(
                InstallReceiptField::RootIdentity,
                InstallReceiptReason::RootIdentityInvalid,
            ),
    {
        let identity = InstallRootIdentity { device_id, inode, owner_id, mode };
        match identity.validate() {
            Ok(()) => Ok(identity),
            Err(e) => Err(e),
        }
    }

    pub fn device_id(&self) -> (r: u64)
        ensures
            r == self.device_id_spec(),
    {
        self.device_id
    }

    pub fn inode(&self) -> (r: u64)
        ensures
            r == self.inode_spec(),
    {
        self.inode
    }

    pub fn owner_id(&self) -> (r: u32)
        ensures
            r == self.owner_id_spec(),
    {
        self.owner_id
    }

    pub fn mode(&self) -> (r: u32)
        ensures
            r == self.mode_spec(),
    {
        self.mode
    }

    pub fn validate(&self) -> (r: Result<(), InstallReceiptError>)
        ensures
            r == self.check(),
    {
        if self.inode == 0 || self.mode != 0o700 {
            return Err(
                InstallReceiptError::invalid(
                    InstallReceiptField::RootIdentity,
                    InstallReceiptReason::RootIdentityInvalid,
                ),
            );
        }
        Ok(())
    }
}

} // verus!

//! The install receipt: one program install, upgrade, repair or removal, its
//! state machine and the evidence each state requires.

use vstd::prelude::*;

use crate::install_artifact::{
    InstallArtifactEvidence, InstallArtifactEvidenceView, InstallArtifactSlot,
    ProgramFilesystemIdentity,
};
use crate::install_product::{
    install_error, option_product_view, same_optional_product, then_check, InstallFailureCode,
    InstallOperationKind, InstallReceiptError, InstallReceiptField, InstallReceiptReason,
    InstallRootIdentity, InstallState, ProductArtifactIdentity, ProductArtifactIdentityView,
    INSTALL_RECEIPT_FORMAT,
};
use crate::text::{is_lower_hex_of_len, lower_hex_of_len, same_text};

verus! {

/// The states that the normal path may take next from `current`, for an operation of `kind`.
pub open spec fn normal_transition_spec(
    kind: InstallOperationKind,
    current: InstallState,
    next: InstallState,
) -> bool {
    match (current, next) {
        (InstallState::Prepared, InstallState::Quiesced) => true,
        (InstallState::Quiesced, InstallState::TargetStaged) => kind != InstallOperationKind::RemovePrograms,
        (InstallState::Quiesced, InstallState::SourcePreserved) => kind == InstallOperationKind::RemovePrograms,
        (InstallState::TargetStaged, InstallState::SourcePreserved) => kind == InstallOperationKind::Upgrade
            || kind == InstallOperationKind::Repair,
        (InstallState::TargetStaged, InstallState::ManagerCommitted) => kind == InstallOperationKind::FirstInstall,
        (InstallState::SourcePreserved, InstallState::ManagerCommitted) => true,
        (InstallState::ManagerCommitted, InstallState::ProgramsCommitted) => true,
        (InstallState::DataCoordinating, InstallState::DataSettled) => true,
        (InstallState::DataSettled, InstallState::FinalVerified) => true,
        (InstallState::FinalVerified, InstallState::Completed) => true,
        (InstallState::ProgramsCommitted, InstallState::DataCoordinating) => kind == InstallOperationKind::Upgrade,
        (InstallState::ProgramsCommitted, InstallState::FinalVerified) => kind != InstallOperationKind::Upgrade,
        _ => false,
    }
}

/// How far along the normal path `state` lies for an operation of `kind`; `None`
/// for failure states and for states that `kind` never passes through.
pub open spec fn progress_rank_spec(kind: InstallOperationKind, state: InstallState) -> Option<u8> {
    match state {
        InstallState::Prepared => Some(0u8),
        InstallState::Quiesced => Some(1u8),
        InstallState::TargetStaged => if kind != InstallOperationKind::RemovePrograms {
            Some(2u8)
        } else {
            None
        },
        InstallState::SourcePreserved => if kind != InstallOperationKind::FirstInstall {
            Some(3u8)
        } else {
            None
        },
        InstallState::ManagerCommitted => Some(4u8),
        InstallState::ProgramsCommitted => Some(5u8),
        InstallState::DataCoordinating => if kind == InstallOperationKind::Upgrade {
            Some(6u8)
        } else {
            None
        },
        InstallState::DataSettled => if kind == InstallOperationKind::Upgrade {
            Some(7u8)
        } else {
            None
        },
        InstallState::FinalVerified => Some(8u8),
        InstallState::Completed => Some(9u8),
        _ => None,
    }
}

/// Position of a normal state on the path; failure states have none.
pub open spec fn normal_order(state: InstallState) -> int {
    match state {
        InstallState::Prepared => 0,
        InstallState::Quiesced => 1,
        InstallState::TargetStaged => 2,
        InstallState::SourcePreserved => 3,
        InstallState::ManagerCommitted => 4,
        InstallState::ProgramsCommitted => 5,
        InstallState::DataCoordinating => 6,
        InstallState::DataSettled => 7,
        InstallState::FinalVerified => 8,
        InstallState::Completed => 9,
        _ => -1,
    }
}

/// The earliest progress rank at which evidence in `slot` may exist.
pub open spec fn minimum_rank_for_slot(kind: InstallOperationKind, slot: InstallArtifactSlot) -> u8 {
    match slot {
        InstallArtifactSlot::BackupManager | InstallArtifactSlot::BackupInputMethod => if kind
            == InstallOperationKind::RemovePrograms {
            1
        } else {
            2
        },
        InstallArtifactSlot::InstalledManager => if kind == InstallOperationKind::FirstInstall {
            2
        } else {
            3
        },
        InstallArtifactSlot::InstalledInputMethod => 4,
        _ => 1,
    }
}

/// The check of an operation ID: exactly 32 lowercase hexadecimal characters.
pub open spec fn operation_id_check(value: Seq<char>, field: InstallReceiptField) -> Result<
    (),
    InstallReceiptError,
> {
    if lower_hex_of_len(value, 32) {
        Ok(())
    } else {
        Err(install_error(field, InstallReceiptReason::OperationIdNotHex))
    }
}

/// The check of an optional product identity.
pub open spec fn optional_product_check(p: Option<ProductArtifactIdentityView>) -> Result<
    (),
    InstallReceiptError,
> {
    match p {
        Some(p) => p.check(),
        None => Ok(()),
    }
}

/// Inserts `e` after every element whose slot comes no later, as a stable sort of
/// `s.push(e)` by slot places it when `s` is already sorted.
pub open spec fn insert_by_slot(s: Seq<InstallArtifactEvidenceView>, e: InstallArtifactEvidenceView) -> Seq<
    InstallArtifactEvidenceView,
>
    decreases s.len(),
{
    if s.len() == 0 {
        seq![e]
    } else if s.last().slot.rank_spec() <= e.slot.rank_spec() {
        s.push(e)
    } else {
        insert_by_slot(s.drop_last(), e).push(s.last())
    }
}

/// Slots strictly increase along the sequence, so each slot occurs at most once.
pub open spec fn slots_strictly_sorted(s: Seq<InstallArtifactEvidenceView>) -> bool {
    forall|i: int, j: int|
        0 <= i < j < s.len() ==> #[trigger] s[i].slot.rank_spec() < #[trigger] s[j].slot.rank_spec()
}

/// `x` occurs in `s`.
pub open spec fn occurs_in(s: Seq<InstallArtifactEvidenceView>, x: InstallArtifactEvidenceView) -> bool {
    exists|j: int| 0 <= j < s.len() && s[j] == x
}

/// Every element of `current` also occurs in `next`.
pub open spec fn append_only(
    current: Seq<InstallArtifactEvidenceView>,
    next: Seq<InstallArtifactEvidenceView>,
) -> bool {
    forall|i: int| 0 <= i < current.len() ==> occurs_in(next, #[trigger] current[i])
}

pub struct InstallReceiptView {
    pub receipt_format: Seq<char>,
    pub operation_id: Seq<char>,
    pub previous_operation_id: Option<Seq<char>>,
    pub operation_kind: InstallOperationKind,
    pub root_identity: InstallRootIdentity,
    pub source_product: Option<ProductArtifactIdentityView>,
    pub target_product: Option<ProductArtifactIdentityView>,
    pub state: InstallState,
    pub failure_code: Option<InstallFailureCode>,
    pub failure_after_state: Option<InstallState>,
    pub manual_recovery_required: bool,
    pub artifacts: Seq<InstallArtifactEvidenceView>,
}

impl InstallReceiptView {
    pub open spec fn has(self, slot: InstallArtifactSlot) -> bool {
        exists|i: int| 0 <= i < self.artifacts.len() && #[trigger] self.artifacts[i].slot == slot
    }

    /// The product that is installed once the receipt is terminal.
    pub open spec fn installed_product(self) -> Option<ProductArtifactIdentityView> {
        match self.state {
            InstallState::Completed => self.target_product,
            InstallState::AbortedPreserved | InstallState::RolledBack => self.source_product,
            _ => None,
        }
    }

    /// The normal state whose evidence a failure state still carries.
    pub open spec fn effective_progress_state(self, state: InstallState) -> InstallState {
        if state is AbortedPreserved || state is RollbackRequired || state is ProgramsRestored
            || state is RolledBack {
            match self.failure_after_state {
                Some(s) => s,
                None => state,
            }
        } else {
            state
        }
    }

    pub open spec fn previous_operation_check(self) -> Result<(), InstallReceiptError> {
        match self.previous_operation_id {
            Some(previous) => if !lower_hex_of_len(previous, 32) {
                Err(install_error(InstallReceiptField::PreviousOperationId, InstallReceiptReason::OperationIdNotHex))
            } else if previous == self.operation_id {
                Err(
                    install_error(
                        InstallReceiptField::PreviousOperationId,
                        InstallReceiptReason::PreviousOperationSame,
                    ),
                )
            } else {
                Ok(())
            },
            None => Ok(()),
        }
    }

    /// Source and target presence and releases fit the operation kind.
    pub open spec fn operation_products_check(self) -> Result<(), InstallReceiptError> {
        match (self.operation_kind, self.source_product, self.target_product) {
            (InstallOperationKind::FirstInstall, None, Some(_)) => Ok(()),
            (InstallOperationKind::RemovePrograms, Some(_), None) => Ok(()),
            (InstallOperationKind::Upgrade, Some(source), Some(target)) => if !source.compatible_with(
                target,
            ) || !target.release.higher_than(source.release) {
                Err(
                    install_error(
                        InstallReceiptField::OperationProducts,
                        InstallReceiptReason::UpgradeTargetNotHigher,
                    ),
                )
            } else {
                Ok(())
            },
            (InstallOperationKind::Repair, Some(source), Some(target)) => if !source.compatible_with(
                target,
            ) || source.release != target.release {
                Err(
                    install_error(
                        InstallReceiptField::OperationProducts,
                        InstallReceiptReason::RepairReleaseDiffers,
                    ),
                )
            } else {
                Ok(())
            },
            _ => Err(
                install_error(
                    InstallReceiptField::OperationProducts,
                    InstallReceiptReason::ProductsDoNotMatchKind,
                ),
            ),
        }
    }

    pub open spec fn artifact_order_check(self) -> Result<(), InstallReceiptError> {
        if slots_strictly_sorted(self.artifacts) {
            Ok(())
        } else {
            Err(install_error(InstallReceiptField::Artifacts, InstallReceiptReason::ArtifactsNotSortedUnique))
        }
    }

    /// Evidence names the bundle that the operation's product of its role holds.
    pub open spec fn artifact_for_operation_check(self, e: InstallArtifactEvidenceView) -> Result<
        (),
        InstallReceiptError,
    > {
        let expected = if e.slot.target_spec() {
            self.target_product
        } else {
            self.source_product
        };
        match expected {
            None => Err(
                install_error(
                    InstallReceiptField::ArtifactEvidence,
                    InstallReceiptReason::ArtifactRoleUnavailable,
                ),
            ),
            Some(product) => if e.identity != product.program(e.slot.component_spec()) {
                Err(
                    install_error(
                        InstallReceiptField::ArtifactEvidence,
                        InstallReceiptReason::ArtifactIdentityDiffers,
                    ),
                )
            } else {
                e.filesystem_identity.check()
            },
        }
    }

    /// The first refusal among the evidence in `s`, checked in order.
    pub open spec fn each_artifact_check(self, s: Seq<InstallArtifactEvidenceView>) -> Result<
        (),
        InstallReceiptError,
    >
        decreases s.len(),
    {
        if s.len() == 0 {
            Ok(())
        } else if self.artifact_for_operation_check(s[0]) is Err {
            self.artifact_for_operation_check(s[0])
        } else {
            self.each_artifact_check(s.drop_first())
        }
    }

    /// Failure fields are present exactly in the failure states, with a failure
    /// stage of the matching kind and the manual-recovery flag of that state.
    pub open spec fn failure_state_check(self) -> Result<(), InstallReceiptError> {
        match self.state {
            InstallState::AbortedPreserved => if self.failure_code is None || !(
            self.failure_after_state matches Some(s) && s.before_program_commit())
                || self.manual_recovery_required {
                Err(install_error(InstallReceiptField::Failure, InstallReceiptReason::AbortedFailureInconsistent))
            } else {
                Ok(())
            },
            InstallState::RollbackRequired | InstallState::ProgramsRestored => if self.failure_code
                is None || !(self.failure_after_state matches Some(s) && s.needs_program_rollback())
                || !self.manual_recovery_required {
                Err(install_error(InstallReceiptField::Failure, InstallReceiptReason::RollbackFailureInconsistent))
            } else {
                Ok(())
            },
            InstallState::RolledBack => if self.failure_code is None || !(
            self.failure_after_state matches Some(s) && s.needs_program_rollback())
                || self.manual_recovery_required {
                Err(
                    install_error(
                        InstallReceiptField::Failure,
                        InstallReceiptReason::RolledBackFailureInconsistent,
                    ),
                )
            } else {
                Ok(())
            },
            _ => if self.failure_code is Some || self.failure_after_state is Some
                || self.manual_recovery_required {
                Err(install_error(InstallReceiptField::Failure, InstallReceiptReason::NormalStateHasFailure))
            } else {
                Ok(())
            },
        }
    }

    /// No evidence exists before the stage at which it can be recorded.
    pub open spec fn artifact_history_check(self) -> Result<(), InstallReceiptError> {
        match progress_rank_spec(self.operation_kind, self.effective_progress_state(self.state)) {
            None => Err(install_error(InstallReceiptField::State, InstallReceiptReason::NoOperationProgress)),
            Some(progress) => if exists|i: int|
                0 <= i < self.artifacts.len() && progress < minimum_rank_for_slot(
                    self.operation_kind,
                    #[trigger] self.artifacts[i].slot,
                ) {
                Err(install_error(InstallReceiptField::Artifacts, InstallReceiptReason::ArtifactBeforeStage))
            } else {
                Ok(())
            },
        }
    }

    /// A bundle renamed from slot `before` to slot `after` kept its filesystem identity.
    pub open spec fn continuity_holds(self, before: InstallArtifactSlot, after: InstallArtifactSlot) -> bool {
        forall|i: int, j: int|
            0 <= i < self.artifacts.len() && 0 <= j < self.artifacts.len() && #[trigger] self.artifacts[i].slot
                == before && #[trigger] self.artifacts[j].slot == after ==> self.artifacts[i].filesystem_identity
                == self.artifacts[j].filesystem_identity
    }

    pub open spec fn continuity_check(self) -> Result<(), InstallReceiptError> {
        if self.continuity_holds(InstallArtifactSlot::SourceManager, InstallArtifactSlot::BackupManager)
            && self.continuity_holds(InstallArtifactSlot::SourceInputMethod, InstallArtifactSlot::BackupInputMethod)
            && self.continuity_holds(InstallArtifactSlot::StagedManager, InstallArtifactSlot::InstalledManager)
            && self.continuity_holds(
            InstallArtifactSlot::StagedInputMethod,
            InstallArtifactSlot::InstalledInputMethod,
        ) {
            Ok(())
        } else {
            Err(install_error(InstallReceiptField::Artifacts, InstallReceiptReason::FilesystemIdentityChanged))
        }
    }

    /// The evidence that must exist once the operation has progressed to `state`.
    /// Source-program evidence is optional, but once either half is recorded for an
    /// operation that replaces or removes programs, both must be.
    pub open spec fn evidence_for_state_check(self, state: InstallState) -> Result<(), InstallReceiptError> {
        let p = self.effective_progress_state(state);
        let kind = self.operation_kind;
        let source_incomplete = self.has(InstallArtifactSlot::SourceManager) != self.has(
            InstallArtifactSlot::SourceInputMethod,
        );
        let target_staged = self.has(InstallArtifactSlot::StagedManager) && self.has(
            InstallArtifactSlot::StagedInputMethod,
        );
        let source_preserved = self.has(InstallArtifactSlot::BackupManager) && self.has(
            InstallArtifactSlot::BackupInputMethod,
        );
        if normal_order(p) >= 2 && (kind == InstallOperationKind::Upgrade || kind
            == InstallOperationKind::Repair) && source_incomplete {
            Err(install_error(InstallReceiptField::Artifacts, InstallReceiptReason::SourceEvidenceIncomplete))
        } else if (p is SourcePreserved || p is ManagerCommitted || p is ProgramsCommitted
            || p is FinalVerified || p is Completed) && kind == InstallOperationKind::RemovePrograms
            && source_incomplete {
            Err(install_error(InstallReceiptField::Artifacts, InstallReceiptReason::SourceEvidenceIncomplete))
        } else if normal_order(p) >= 2 && kind != InstallOperationKind::RemovePrograms
            && !target_staged {
            Err(install_error(InstallReceiptField::Artifacts, InstallReceiptReason::TargetStagingIncomplete))
        } else if normal_order(p) >= 3 && kind != InstallOperationKind::FirstInstall
            && !source_preserved {
            Err(
                install_error(
                    InstallReceiptField::Artifacts,
                    InstallReceiptReason::SourcePreservationIncomplete,
                ),
            )
        } else if normal_order(p) >= 4 && kind != InstallOperationKind::RemovePrograms && !self.has(
            InstallArtifactSlot::InstalledManager,
        ) {
            Err(install_error(InstallReceiptField::Artifacts, InstallReceiptReason::InstalledManagerMissing))
        } else if normal_order(p) >= 5 && kind != InstallOperationKind::RemovePrograms && !self.has(
            InstallArtifactSlot::InstalledInputMethod,
        ) {
            Err(install_error(InstallReceiptField::Artifacts, InstallReceiptReason::InstalledInputMethodMissing))
        } else {
            self.continuity_check()
        }
    }

    /// Every check a receipt must pass, in the order they are made.
    #[verifier::opaque]
    pub open spec fn validation(self) -> Result<(), InstallReceiptError> {
        if self.receipt_format != INSTALL_RECEIPT_FORMAT@ {
            Err(install_error(InstallReceiptField::ReceiptFormat, InstallReceiptReason::UnsupportedFormat))
        } else {
            then_check(
                operation_id_check(self.operation_id, InstallReceiptField::OperationId),
                then_check(
                    self.previous_operation_check(),
                    then_check(
                        self.root_identity.check(),
                        then_check(
                            optional_product_check(self.source_product),
                            then_check(
                                optional_product_check(self.target_product),
                                then_check(
                                    self.operation_products_check(),
                                    then_check(
                                        self.artifact_order_check(),
                                        then_check(
                                            self.each_artifact_check(self.artifacts),
                                            then_check(
                                                self.failure_state_check(),
                                                then_check(
                                                    self.artifact_history_check(),
                                                    self.evidence_for_state_check(self.state),
                                                ),
                                            ),
                                        ),
                                    ),
                                ),
                            ),
                        ),
                    ),
                ),
            )
        }
    }

    /// A well-formed receipt: it passes every check.
    pub open spec fn wf(self) -> bool {
        self.validation() is Ok
    }

    /// The receipt accepts normal steps: it is neither terminal nor rolling back.
    pub open spec fn open_check(self) -> Result<(), InstallReceiptError> {
        if self.state.terminal() || self.state is RollbackRequired || self.state is ProgramsRestored {
            Err(install_error(InstallReceiptField::State, InstallReceiptReason::NotOpenForMutation))
        } else {
            Ok(())
        }
    }

    /// The state in which evidence of `slot` may be recorded.
    pub open spec fn recording_state_allows(self, slot: InstallArtifactSlot) -> bool {
        match slot {
            InstallArtifactSlot::SourceManager | InstallArtifactSlot::SourceInputMethod
            | InstallArtifactSlot::StagedManager | InstallArtifactSlot::StagedInputMethod => self.state
                == InstallState::Quiesced,
            InstallArtifactSlot::BackupManager | InstallArtifactSlot::BackupInputMethod => self.state
                == InstallState::TargetStaged || (self.operation_kind
                == InstallOperationKind::RemovePrograms && self.state == InstallState::Quiesced),
            InstallArtifactSlot::InstalledManager => self.state == InstallState::SourcePreserved || (
            self.operation_kind == InstallOperationKind::FirstInstall && self.state
                == InstallState::TargetStaged),
            InstallArtifactSlot::InstalledInputMethod => self.state == InstallState::ManagerCommitted,
        }
    }

    /// The receipt after recording `e`, or the refusal.
    pub open spec fn record_result(self, e: InstallArtifactEvidenceView) -> Result<
        (),
        InstallReceiptError,
    > {
        if self.open_check() is Err {
            self.open_check()
        } else if self.has(e.slot) {
            Err(install_error(InstallReceiptField::Artifacts, InstallReceiptReason::SlotAlreadyRecorded))
        } else if self.artifact_for_operation_check(e) is Err {
            self.artifact_for_operation_check(e)
        } else if !self.recording_state_allows(e.slot) {
            Err(install_error(InstallReceiptField::ArtifactEvidence, InstallReceiptReason::ArtifactStateNotAllowed))
        } else {
            self.with_artifacts(insert_by_slot(self.artifacts, e)).validation()
        }
    }

    pub open spec fn with_artifacts(self, artifacts: Seq<InstallArtifactEvidenceView>) -> Self {
        InstallReceiptView { artifacts, ..self }
    }

    pub open spec fn with_state(self, state: InstallState) -> Self {
        InstallReceiptView { state, ..self }
    }

    /// The refusal of a normal step to `next`, if any.
    pub open spec fn advance_result(self, next: InstallState) -> Result<(), InstallReceiptError> {
        if self.open_check() is Err {
            self.open_check()
        } else if !normal_transition_spec(self.operation_kind, self.state, next) {
            Err(install_error(InstallReceiptField::State, InstallReceiptReason::TransitionNotAllowed))
        } else {
            self.evidence_for_state_check(next)
        }
    }

    /// The receipt after a pre-commit failure with `code`.
    pub open spec fn aborted(self, code: InstallFailureCode) -> Self {
        InstallReceiptView {
            failure_after_state: Some(self.state),
            failure_code: Some(code),
            manual_recovery_required: false,
            state: InstallState::AbortedPreserved,
            ..self
        }
    }

    /// The receipt after a post-commit failure with `code`.
    pub open spec fn rollback_required(self, code: InstallFailureCode) -> Self {
        InstallReceiptView {
            failure_after_state: Some(self.state),
            failure_code: Some(code),
            manual_recovery_required: true,
            state: InstallState::RollbackRequired,
            ..self
        }
    }

    /// `next` may start once this receipt is terminal: it is a fresh operation on the
    /// same root that names this one as its predecessor and starts from the product
    /// this one left installed.
    pub open spec fn can_start_after(next: Self, current: Self) -> bool {
        &&& current.state.terminal()
        &&& next.state == InstallState::Prepared
        &&& next.root_identity == current.root_identity
        &&& next.previous_operation_id == Some(current.operation_id)
        &&& next.source_product == current.installed_product()
        &&& next.artifacts.len() == 0
        &&& next.failure_code is None
        &&& next.failure_after_state is None
        &&& !next.manual_recovery_required
    }

    /// The state change from `current` to `next` is one step of the operation.
    pub open spec fn replacement_transition(current: Self, next: Self) -> bool {
        if normal_transition_spec(current.operation_kind, current.state, next.state) {
            current.failure_code is None && next.failure_code is None
                && current.failure_after_state is None && next.failure_after_state is None
                && !current.manual_recovery_required && !next.manual_recovery_required
        } else if next.state is AbortedPreserved && current.state.before_program_commit() {
            next.failure_code is Some && next.failure_after_state == Some(current.state)
                && !next.manual_recovery_required
        } else if next.state is RollbackRequired && current.state.needs_program_rollback() {
            next.failure_code is Some && next.failure_after_state == Some(current.state)
                && next.manual_recovery_required
        } else if current.state is RollbackRequired && next.state is ProgramsRestored {
            current.failure_code == next.failure_code && current.failure_after_state
                == next.failure_after_state && next.manual_recovery_required
        } else if current.state is ProgramsRestored && next.state is RolledBack {
            current.failure_code == next.failure_code && current.failure_after_state
                == next.failure_after_state && !next.manual_recovery_required
        } else {
            false
        }
    }

    /// `next` may be persisted in place of `current`: both are well-formed and
    /// `next` is either the next operation after a terminal `current`, or the same
    /// operation one step further with its evidence only extended.
    pub open spec fn can_replace(next: Self, current: Self) -> bool {
        if !next.wf() || !current.wf() {
            false
        } else if next.operation_id != current.operation_id {
            Self::can_start_after(next, current)
        } else if next.receipt_format != current.receipt_format || next.previous_operation_id
            != current.previous_operation_id || next.operation_kind != current.operation_kind
            || next.root_identity != current.root_identity || next.source_product
            != current.source_product || next.target_product != current.target_product
            || !append_only(current.artifacts, next.artifacts) {
            false
        } else if next.state == current.state {
            next.failure_code == current.failure_code && next.failure_after_state
                == current.failure_after_state && next.manual_recovery_required
                == current.manual_recovery_required && next.artifacts.len()
                > current.artifacts.len()
        } else {
            Self::replacement_transition(current, next)
        }
    }
}

/// The install receipt of one program operation.
#[derive(Debug, Clone, PartialEq, Eq)]
pub struct InstallReceipt {
    receipt_format: String,
    operation_id: String,
    previous_operation_id: Option<String>,
    operation_kind: InstallOperationKind,
    root_identity: InstallRootIdentity,
    source_product: Option<ProductArtifactIdentity>,
    target_product: Option<ProductArtifactIdentity>,
    state: InstallState,
    failure_code: Option<InstallFailureCode>,
    failure_after_state: Option<InstallState>,
    manual_recovery_required: bool,
    artifacts: Vec<InstallArtifactEvidence>,
}

pub open spec fn option_text_view(s: Option<String>) -> Option<Seq<char>> {
    match s {
        Some(s) => Some(s@),
        None => None,
    }
}

pub open spec fn evidence_views(s: Seq<InstallArtifactEvidence>) -> Seq<InstallArtifactEvidenceView> {
    s.map_values(|e: InstallArtifactEvidence| e@)
}

impl View for InstallReceipt {
    type V = InstallReceiptView;

    closed spec fn view(&self) -> InstallReceiptView {
        InstallReceiptView {
            receipt_format: self.receipt_format@,
            operation_id: self.operation_id@,
            previous_operation_id: option_text_view(self.previous_operation_id),
            operation_kind: self.operation_kind,
            root_identity: self.root_identity,
            source_product: option_product_view(self.source_product),
            target_product: option_product_view(self.target_product),
            state: self.state,
            failure_code: self.failure_code,
            failure_after_state: self.failure_after_state,
            manual_recovery_required: self.manual_recovery_required,
            artifacts: evidence_views(self.artifacts@),
        }
    }
}

pub fn normal_transition(
    kind: InstallOperationKind,
    current: InstallState,
    next: InstallState,
) -> (r: bool)
    ensures
        r == normal_transition_spec(kind, current, next),
{
    match (current, next) {
        (InstallState::Prepared, InstallState::Quiesced) => true,
        (InstallState::Quiesced, InstallState::TargetStaged) => kind != InstallOperationKind::RemovePrograms,
        (InstallState::Quiesced, InstallState::SourcePreserved) => kind == InstallOperationKind::RemovePrograms,
        (InstallState::TargetStaged, InstallState::SourcePreserved) => kind == InstallOperationKind::Upgrade
            || kind == InstallOperationKind::Repair,
        (InstallState::TargetStaged, InstallState::ManagerCommitted) => kind == InstallOperationKind::FirstInstall,
        (InstallState::SourcePreserved, InstallState::ManagerCommitted) => true,
        (InstallState::ManagerCommitted, InstallState::ProgramsCommitted) => true,
        (InstallState::DataCoordinating, InstallState::DataSettled) => true,
        (InstallState::DataSettled, InstallState::FinalVerified) => true,
        (InstallState::FinalVerified, InstallState::Completed) => true,
        (InstallState::ProgramsCommitted, InstallState::DataCoordinating) => kind == InstallOperationKind::Upgrade,
        (InstallState::ProgramsCommitted, InstallState::FinalVerified) => kind != InstallOperationKind::Upgrade,
        _ => false,
    }
}

pub fn progress_rank(kind: InstallOperationKind, state: InstallState) -> (r: Option<u8>)
    ensures
        r == progress_rank_spec(kind, state),
{
    match state {
        InstallState::Prepared => Some(0),
        InstallState::Quiesced => Some(1),
        InstallState::TargetStaged => if kind != InstallOperationKind::RemovePrograms {
            Some(2)
        } else {
            None
        },
        InstallState::SourcePreserved => if kind != InstallOperationKind::FirstInstall {
            Some(3)
        } else {
            None
        },
        InstallState::ManagerCommitted => Some(4),
        InstallState::ProgramsCommitted => Some(5),
        InstallState::DataCoordinating => if kind == InstallOperationKind::Upgrade {
            Some(6)
        } else {
            None
        },
        InstallState::DataSettled => if kind == InstallOperationKind::Upgrade {
            Some(7)
        } else {
            None
        },
        InstallState::FinalVerified => Some(8),
        InstallState::Completed => Some(9),
        _ => None,
    }
}

fn minimum_rank(kind: InstallOperationKind, slot: InstallArtifactSlot) -> (r: u8)
    ensures
        r == minimum_rank_for_slot(kind, slot),
{
    match slot {
        InstallArtifactSlot::BackupManager | InstallArtifactSlot::BackupInputMethod => if kind
            == InstallOperationKind::RemovePrograms {
            1
        } else {
            2
        },
        InstallArtifactSlot::InstalledManager => if kind == InstallOperationKind::FirstInstall {
            2
        } else {
            3
        },
        InstallArtifactSlot::InstalledInputMethod => 4,
        _ => 1,
    }
}

fn order_of(state: InstallState) -> (r: i8)
    ensures
        r as int == normal_order(state),
{
    match state {
        InstallState::Prepared => 0,
        InstallState::Quiesced => 1,
        InstallState::TargetStaged => 2,
        InstallState::SourcePreserved => 3,
        InstallState::ManagerCommitted => 4,
        InstallState::ProgramsCommitted => 5,
        InstallState::DataCoordinating => 6,
        InstallState::DataSettled => 7,
        InstallState::FinalVerified => 8,
        InstallState::Completed => 9,
        _ => -1,
    }
}

/// An operation ID: 32 lowercase hexadecimal digits.
pub fn is_operation_id(value: &str) -> (r: bool)
    ensures
        r == lower_hex_of_len(value@, 32),
{
    is_lower_hex_of_len(value, 32)
}

fn validate_operation_id(value: &str, field: InstallReceiptField) -> (r: Result<(), InstallReceiptError>)
    ensures
        r == operation_id_check(value@, field),
{
    if is_lower_hex_of_len(value, 32) {
        Ok(())
    } else {
        Err(InstallReceiptError::invalid(field, InstallReceiptReason::OperationIdNotHex))
    }
}

fn validate_optional_product(p: &Option<ProductArtifactIdentity>) -> (r: Result<(), InstallReceiptError>)
    ensures
        r == optional_product_check(option_product_view(*p)),
{
    match p {
        Some(p) => p.validate(),
        None => Ok(()),
    }
}

fn validate_artifact_order(artifacts: &Vec<InstallArtifactEvidence>) -> (r: Result<
    (),
    InstallReceiptError,
>)
    ensures
        r is Ok <==> slots_strictly_sorted(evidence_views(artifacts@)),
        r matches Err(e) ==> e == install_error(
            InstallReceiptField::Artifacts,
            InstallReceiptReason::ArtifactsNotSortedUnique,
        ),
{
    let ghost s = evidence_views(artifacts@);
    let len = artifacts.len();
    if len == 0 {
        return Ok(());
    }
    let mut i: usize = 1;
    while i < len
        invariant
            1 <= i <= len,
            len == artifacts@.len(),
            s == evidence_views(artifacts@),
            forall|a: int, b: int|
                0 <= a < b < i ==> #[trigger] s[a].slot.rank_spec() < #[trigger] s[b].slot.rank_spec(),
        decreases len - i,
    {
        let previous = artifacts[i - 1].slot().rank();
        let current = artifacts[i].slot().rank();
        if previous >= current {
            assert(!slots_strictly_sorted(s)) by {
                assert(s[i - 1].slot.rank_spec() >= s[i as int].slot.rank_spec());
            }
            return Err(
                InstallReceiptError::invalid(
                    InstallReceiptField::Artifacts,
                    InstallReceiptReason::ArtifactsNotSortedUnique,
                ),
            );
        }
        assert forall|a: int, b: int| 0 <= a < b < i + 1 implies #[trigger] s[a].slot.rank_spec()
            < #[trigger] s[b].slot.rank_spec() by {
            if b == i && a < i - 1 {
                assert(s[a].slot.rank_spec() < s[i - 1].slot.rank_spec());
            }
        }
        i = i + 1;
    }
    Ok(())
}

/// Every element of `current` also occurs in `next`.
fn artifacts_are_append_only(
    current: &Vec<InstallArtifactEvidence>,
    next: &Vec<InstallArtifactEvidence>,
) -> (r: bool)
    ensures
        r == append_only(evidence_views(current@), evidence_views(next@)),
{
    let ghost c = evidence_views(current@);
    let ghost n = evidence_views(next@);
    let mut i: usize = 0;
    while i < current.len()
        invariant
            i <= current@.len(),
            c == evidence_views(current@),
            n == evidence_views(next@),
            forall|a: int| 0 <= a < i ==> occurs_in(n, #[trigger] c[a]),
        decreases current@.len() - i,
    {
        let mut j: usize = 0;
        let mut found = false;
        while j < next.len()
            invariant
                j <= next@.len(),
                i < current@.len(),
                c == evidence_views(current@),
                n == evidence_views(next@),
                found ==> occurs_in(n, c[i as int]),
                !found ==> forall|k: int| 0 <= k < j ==> #[trigger] n[k] != c[i as int],
            decreases next@.len() - j,
        {
            if !found && next[j].same_as(&current[i]) {
                assert(n[j as int] == next@[j as int]@);
                assert(c[i as int] == current@[i as int]@);
                found = true;
            }
            j = j + 1;
        }
        if !found {
            assert(!occurs_in(n, c[i as int]));
            return false;
        }
        i = i + 1;
    }
    true
}

pub proof fn lemma_insert_by_slot(s: Seq<InstallArtifactEvidenceView>, e: InstallArtifactEvidenceView, p: int)
    requires
        0 <= p <= s.len(),
        forall|i: int| 0 <= i < p ==> #[trigger] s[i].slot.rank_spec() <= e.slot.rank_spec(),
        forall|i: int| p <= i < s.len() ==> #[trigger] s[i].slot.rank_spec() > e.slot.rank_spec(),
    ensures
        insert_by_slot(s, e) == s.insert(p, e),
    decreases s.len(),
{
    if s.len() == 0 {
        assert(s.insert(p, e) =~= seq![e]);
    } else if p == s.len() {
        assert(s.insert(p, e) =~= s.push(e));
    } else {
        lemma_insert_by_slot(s.drop_last(), e, p);
        assert(s.drop_last().insert(p, e).push(s.last()) =~= s.insert(p, e));
    }
}

impl InstallReceipt {
    fn has_slot(&self, slot: InstallArtifactSlot) -> (r: bool)
        ensures
            r == self@.has(slot),
    {
        let ghost s = self@.artifacts;
        let mut i: usize = 0;
        while i < self.artifacts.len()
            invariant
                i <= self.artifacts@.len(),
                s == evidence_views(self.artifacts@),
                s == self@.artifacts,
                forall|k: int| 0 <= k < i ==> #[trigger] s[k].slot != slot,
            decreases self.artifacts@.len() - i,
        {
            if self.artifacts[i].slot() == slot {
                assert(s[i as int].slot == slot);
                return true;
            }
            i = i + 1;
        }
        false
    }

    /// The first recorded evidence in `slot`, if any.
    pub fn artifact(&self, slot: InstallArtifactSlot) -> (r: Option<&InstallArtifactEvidence>)
        ensures
            match r {
                Some(e) => exists|i: int|
                    0 <= i < self@.artifacts.len() && self@.artifacts[i] == e@ && e@.slot == slot
                        && forall|k: int| 0 <= k < i ==> #[trigger] self@.artifacts[k].slot != slot,
                None => !self@.has(slot),
            },
    {
        let ghost s = self@.artifacts;
        let mut i: usize = 0;
        while i < self.artifacts.len()
            invariant
                i <= self.artifacts@.len(),
                s == evidence_views(self.artifacts@),
                s == self@.artifacts,
                forall|k: int| 0 <= k < i ==> #[trigger] s[k].slot != slot,
            decreases self.artifacts@.len() - i,
        {
            if self.artifacts[i].slot() == slot {
                assert(s[i as int] == self.artifacts@[i as int]@);
                return Some(&self.artifacts[i]);
            }
            i = i + 1;
        }
        None
    }

    fn effective_progress_state(&self, state: InstallState) -> (r: InstallState)
        ensures
            r == self@.effective_progress_state(state),
    {
        if matches!(
            state,
            InstallState::AbortedPreserved | InstallState::RollbackRequired
                | InstallState::ProgramsRestored | InstallState::RolledBack
        ) {
            match self.failure_after_state {
                Some(s) => s,
                None => state,
            }
        } else {
            state
        }
    }

    fn validate_previous_operation(&self) -> (r: Result<(), InstallReceiptError>)
        ensures
            r == self@.previous_operation_check(),
    {
        match &self.previous_operation_id {
            Some(previous) => {
                match validate_operation_id(
                    previous.as_str(),
                    InstallReceiptField::PreviousOperationId,
                ) {
                    Err(e) => return Err(e),
                    Ok(()) => {},
                }
                if *previous == self.operation_id {
                    return Err(
                        InstallReceiptError::invalid(
                            InstallReceiptField::PreviousOperationId,
                            InstallReceiptReason::PreviousOperationSame,
                        ),
                    );
                }
                Ok(())
            },
            None => Ok(()),
        }
    }

    fn validate_operation_products(&self) -> (r: Result<(), InstallReceiptError>)
        requires
            optional_product_check(self@.source_product) is Ok,
            optional_product_check(self@.target_product) is Ok,
        ensures
            r == self@.operation_products_check(),
    {
        match (self.operation_kind, &self.source_product, &self.target_product) {
            (InstallOperationKind::FirstInstall, None, Some(_)) => Ok(()),
            (InstallOperationKind::RemovePrograms, Some(_), None) => Ok(()),
            (InstallOperationKind::Upgrade, Some(source), Some(target)) => {
                if !source.compatible_with(target) || !target.release().is_higher_than(
                    source.release(),
                ) {
                    return Err(
                        InstallReceiptError::invalid(
                            InstallReceiptField::OperationProducts,
                            InstallReceiptReason::UpgradeTargetNotHigher,
                        ),
                    );
                }
                Ok(())
            },
            (InstallOperationKind::Repair, Some(source), Some(target)) => {
                if !source.compatible_with(target) || !source.release().same_as(target.release()) {
                    return Err(
                        InstallReceiptError::invalid(
                            InstallReceiptField::OperationProducts,
                            InstallReceiptReason::RepairReleaseDiffers,
                        ),
                    );
                }
                Ok(())
            },
            _ => Err(
                InstallReceiptError::invalid(
                    InstallReceiptField::OperationProducts,
                    InstallReceiptReason::ProductsDoNotMatchKind,
                ),
            ),
        }
    }

    fn validate_artifact_for_operation(&self, evidence: &InstallArtifactEvidence) -> (r: Result<
        (),
        InstallReceiptError,
    >)
        ensures
            r == self@.artifact_for_operation_check(evidence@),
    {
        let slot = evidence.slot();
        let expected = if slot.is_target() {
            &self.target_product
        } else {
            &self.source_product
        };
        match expected {
            None => Err(
                InstallReceiptError::invalid(
                    InstallReceiptField::ArtifactEvidence,
                    InstallReceiptReason::ArtifactRoleUnavailable,
                ),
            ),
            Some(product) => {
                if !evidence.identity().same_as(product.program(slot.component())) {
                    return Err(
                        InstallReceiptError::invalid(
                            InstallReceiptField::ArtifactEvidence,
                            InstallReceiptReason::ArtifactIdentityDiffers,
                        ),
                    );
                }
                evidence.filesystem_identity().validate()
            },
        }
    }

    fn validate_each_artifact(&self) -> (r: Result<(), InstallReceiptError>)
        ensures
            r == self@.each_artifact_check(self@.artifacts),
    {
        let ghost s = self@.artifacts;
        let mut i: usize = 0;
        assert(s.skip(0) =~= s);
        while i < self.artifacts.len()
            invariant
                i <= self.artifacts@.len(),
                s == self@.artifacts,
                s.len() == self.artifacts@.len(),
                self@.each_artifact_check(s) == self@.each_artifact_check(s.skip(i as int)),
            decreases self.artifacts@.len() - i,
        {
            let ghost rest = s.skip(i as int);
            assert(rest[0] == s[i as int]);
            assert(rest.drop_first() =~= s.skip(i + 1));
            match self.validate_artifact_for_operation(&self.artifacts[i]) {
                Err(e) => return Err(e),
                Ok(()) => {},
            }
            i = i + 1;
        }
        assert(s.skip(i as int).len() == 0);
        Ok(())
    }

    fn validate_failure_state(&self) -> (r: Result<(), InstallReceiptError>)
        ensures
            r == self@.failure_state_check(),
    {
        match self.state {
            InstallState::AbortedPreserved => {
                let stage_ok = match self.failure_after_state {
                    Some(s) => s.is_before_program_commit(),
                    None => false,
                };
                if self.failure_code.is_none() || !stage_ok || self.manual_recovery_required {
                    return Err(
                        InstallReceiptError::invalid(
                            InstallReceiptField::Failure,
                            InstallReceiptReason::AbortedFailureInconsistent,
                        ),
                    );
                }
            },
            InstallState::RollbackRequired | InstallState::ProgramsRestored => {
                let stage_ok = match self.failure_after_state {
                    Some(s) => s.requires_program_rollback(),
                    None => false,
                };
                if self.failure_code.is_none() || !stage_ok || !self.manual_recovery_required {
                    return Err(
                        InstallReceiptError::invalid(
                            InstallReceiptField::Failure,
                            InstallReceiptReason::RollbackFailureInconsistent,
                        ),
                    );
                }
            },
            InstallState::RolledBack => {
                let stage_ok = match self.failure_after_state {
                    Some(s) => s.requires_program_rollback(),
                    None => false,
                };
                if self.failure_code.is_none() || !stage_ok || self.manual_recovery_required {
                    return Err(
                        InstallReceiptError::invalid(
                            InstallReceiptField::Failure,
                            InstallReceiptReason::RolledBackFailureInconsistent,
                        ),
                    );
                }
            },
            _ => {
                if self.failure_code.is_some() || self.failure_after_state.is_some()
                    || self.manual_recovery_required {
                    return Err(
                        InstallReceiptError::invalid(
                            InstallReceiptField::Failure,
                            InstallReceiptReason::NormalStateHasFailure,
                        ),
                    );
                }
            },
        }
        Ok(())
    }

    fn validate_artifact_history(&self) -> (r: Result<(), InstallReceiptError>)
        ensures
            r == self@.artifact_history_check(),
    {
        let ghost s = self@.artifacts;
        let progress = match progress_rank(
            self.operation_kind,
            self.effective_progress_state(self.state),
        ) {
            None => {
                return Err(
                    InstallReceiptError::invalid(
                        InstallReceiptField::State,
                        InstallReceiptReason::NoOperationProgress,
                    ),
                );
            },
            Some(p) => p,
        };
        let mut i: usize = 0;
        while i < self.artifacts.len()
            invariant
                i <= self.artifacts@.len(),
                s == self@.artifacts,
                s.len() == self.artifacts@.len(),
                progress_rank_spec(self@.operation_kind, self@.effective_progress_state(self@.state))
                    == Some(progress),
                forall|k: int|
                    0 <= k < i ==> !(progress < minimum_rank_for_slot(
                        self@.operation_kind,
                        #[trigger] s[k].slot,
                    )),
            decreases self.artifacts@.len() - i,
        {
            if progress < minimum_rank(self.operation_kind, self.artifacts[i].slot()) {
                assert(progress < minimum_rank_for_slot(self@.operation_kind, s[i as int].slot));
                return Err(
                    InstallReceiptError::invalid(
                        InstallReceiptField::Artifacts,
                        InstallReceiptReason::ArtifactBeforeStage,
                    ),
                );
            }
            i = i + 1;
        }
        Ok(())
    }

    /// Whether the bundles in slots `before` and `after`, where both are recorded,
    /// share their filesystem identity.
    fn continuity_between(&self, before: InstallArtifactSlot, after: InstallArtifactSlot) -> (r: bool)
        requires
            slots_strictly_sorted(self@.artifacts),
            before != after,
        ensures
            r == self@.continuity_holds(before, after),
    {
        let ghost s = self@.artifacts;
        let first = self.artifact(before);
        let second = self.artifact(after);
        match (first, second) {
            (Some(a), Some(b)) => {
                proof {
                    assert forall|i: int, j: int|
                        0 <= i < s.len() && 0 <= j < s.len() && #[trigger] s[i].slot == before
                            && #[trigger] s[j].slot == after implies s[i] == a@ && s[j] == b@ by {
                        let ia = choose|x: int|
                            0 <= x < s.len() && s[x] == a@ && a@.slot == before && forall|k: int|
                                0 <= k < x ==> #[trigger] s[k].slot != before;
                        let ib = choose|x: int|
                            0 <= x < s.len() && s[x] == b@ && b@.slot == after && forall|k: int|
                                0 <= k < x ==> #[trigger] s[k].slot != after;
                        if i != ia {
                            if i < ia {
                                assert(s[i].slot.rank_spec() < s[ia].slot.rank_spec());
                            } else {
                                assert(s[ia].slot.rank_spec() < s[i].slot.rank_spec());
                            }
                        }
                        if j != ib {
                            if j < ib {
                                assert(s[j].slot.rank_spec() < s[ib].slot.rank_spec());
                            } else {
                                assert(s[ib].slot.rank_spec() < s[j].slot.rank_spec());
                            }
                        }
                    }
                }
                let same = *a.filesystem_identity() == *b.filesystem_identity();
                proof {
                    if !same {
                        let ia = choose|x: int|
                            0 <= x < s.len() && s[x] == a@ && a@.slot == before && forall|k: int|
                                0 <= k < x ==> #[trigger] s[k].slot != before;
                        let ib = choose|x: int|
                            0 <= x < s.len() && s[x] == b@ && b@.slot == after && forall|k: int|
                                0 <= k < x ==> #[trigger] s[k].slot != after;
                        assert(s[ia].slot == before && s[ib].slot == after);
                    }
                }
                same
            },
            _ => true,
        }
    }

    fn validate_filesystem_identity_continuity(&self) -> (r: Result<(), InstallReceiptError>)
        requires
            slots_strictly_sorted(self@.artifacts),
        ensures
            r == self@.continuity_check(),
    {
        if self.continuity_between(InstallArtifactSlot::SourceManager, InstallArtifactSlot::BackupManager)
            && self.continuity_between(
            InstallArtifactSlot::SourceInputMethod,
            InstallArtifactSlot::BackupInputMethod,
        ) && self.continuity_between(
            InstallArtifactSlot::StagedManager,
            InstallArtifactSlot::InstalledManager,
        ) && self.continuity_between(
            InstallArtifactSlot::StagedInputMethod,
            InstallArtifactSlot::InstalledInputMethod,
        ) {
            Ok(())
        } else {
            Err(
                InstallReceiptError::invalid(
                    InstallReceiptField::Artifacts,
                    InstallReceiptReason::FilesystemIdentityChanged,
                ),
            )
        }
    }

    fn validate_evidence_for_state(&self, state: InstallState) -> (r: Result<(), InstallReceiptError>)
        requires
            slots_strictly_sorted(self@.artifacts),
        ensures
            r == self@.evidence_for_state_check(state),
    {
        let p = self.effective_progress_state(state);
        let order = order_of(p);
        let kind = self.operation_kind;
        let source_incomplete = self.has_slot(InstallArtifactSlot::SourceManager) != self.has_slot(
            InstallArtifactSlot::SourceInputMethod,
        );
        let target_staged = self.has_slot(InstallArtifactSlot::StagedManager) && self.has_slot(
            InstallArtifactSlot::StagedInputMethod,
        );
        let source_preserved = self.has_slot(InstallArtifactSlot::BackupManager) && self.has_slot(
            InstallArtifactSlot::BackupInputMethod,
        );
        if order >= 2 && (kind == InstallOperationKind::Upgrade || kind
            == InstallOperationKind::Repair) && source_incomplete {
            return Err(
                InstallReceiptError::invalid(
                    InstallReceiptField::Artifacts,
                    InstallReceiptReason::SourceEvidenceIncomplete,
                ),
            );
        }
        if matches!(
            p,
            InstallState::SourcePreserved | InstallState::ManagerCommitted
                | InstallState::ProgramsCommitted | InstallState::FinalVerified
                | InstallState::Completed
        ) && kind == InstallOperationKind::RemovePrograms && source_incomplete {
            return Err(
                InstallReceiptError::invalid(
                    InstallReceiptField::Artifacts,
                    InstallReceiptReason::SourceEvidenceIncomplete,
                ),
            );
        }
        if order >= 2 && kind != InstallOperationKind::RemovePrograms && !target_staged {
            return Err(
                InstallReceiptError::invalid(
                    InstallReceiptField::Artifacts,
                    InstallReceiptReason::TargetStagingIncomplete,
                ),
            );
        }
        if order >= 3 && kind != InstallOperationKind::FirstInstall && !source_preserved {
            return Err(
                InstallReceiptError::invalid(
                    InstallReceiptField::Artifacts,
                    InstallReceiptReason::SourcePreservationIncomplete,
                ),
            );
        }
        if order >= 4 && kind != InstallOperationKind::RemovePrograms && !self.has_slot(
            InstallArtifactSlot::InstalledManager,
        ) {
            return Err(
                InstallReceiptError::invalid(
                    InstallReceiptField::Artifacts,
                    InstallReceiptReason::InstalledManagerMissing,
                ),
            );
        }
        if order >= 5 && kind != InstallOperationKind::RemovePrograms && !self.has_slot(
            InstallArtifactSlot::InstalledInputMethod,
        ) {
            return Err(
                InstallReceiptError::invalid(
                    InstallReceiptField::Artifacts,
                    InstallReceiptReason::InstalledInputMethodMissing,
                ),
            );
        }
        self.validate_filesystem_identity_continuity()
    }

    /// Runs every receipt check in order and reports the first refusal.
    pub fn validate(&self) -> (r: Result<(), InstallReceiptError>)
        ensures
            r == self@.validation(),
    {
        reveal(InstallReceiptView::validation);
        if !same_text(self.receipt_format.as_str(), INSTALL_RECEIPT_FORMAT) {
            return Err(
                InstallReceiptError::invalid(
                    InstallReceiptField::ReceiptFormat,
                    InstallReceiptReason::UnsupportedFormat,
                ),
            );
        }
        match validate_operation_id(self.operation_id.as_str(), InstallReceiptField::OperationId) {
            Err(e) => return Err(e),
            Ok(()) => {},
        }
        match self.validate_previous_operation() {
            Err(e) => return Err(e),
            Ok(()) => {},
        }
        match self.root_identity.validate() {
            Err(e) => return Err(e),
            Ok(()) => {},
        }
        match validate_optional_product(&self.source_product) {
            Err(e) => return Err(e),
            Ok(()) => {},
        }
        match validate_optional_product(&self.target_product) {
            Err(e) => return Err(e),
            Ok(()) => {},
        }
        match self.validate_operation_products() {
            Err(e) => return Err(e),
            Ok(()) => {},
        }
        match validate_artifact_order(&self.artifacts) {
            Err(e) => return Err(e),
            Ok(()) => {},
        }
        match self.validate_each_artifact() {
            Err(e) => return Err(e),
            Ok(()) => {},
        }
        match self.validate_failure_state() {
            Err(e) => return Err(e),
            Ok(()) => {},
        }
        match self.validate_artifact_history() {
            Err(e) => return Err(e),
            Ok(()) => {},
        }
        self.validate_evidence_for_state(self.state)
    }
}

pub open spec fn optional_product_ref_view(p: Option<&ProductArtifactIdentity>) -> Option<
    ProductArtifactIdentityView,
> {
    match p {
        Some(p) => Some(p@),
        None => None,
    }
}

fn same_failure_code(a: Option<InstallFailureCode>, b: Option<InstallFailureCode>) -> (r: bool)
    ensures
        r == (a == b),
{
    match (a, b) {
        (Some(x), Some(y)) => x == y,
        (None, None) => true,
        _ => false,
    }
}

fn same_optional_state(a: Option<InstallState>, b: Option<InstallState>) -> (r: bool)
    ensures
        r == (a == b),
{
    match (a, b) {
        (Some(x), Some(y)) => x == y,
        (None, None) => true,
        _ => false,
    }
}

fn same_optional_text(a: &Option<String>, b: &Option<String>) -> (r: bool)
    ensures
        r == (option_text_view(*a) == option_text_view(*b)),
{
    match (a, b) {
        (Some(x), Some(y)) => *x == *y,
        (None, None) => true,
        _ => false,
    }
}

fn same_product_as_ref(a: &Option<ProductArtifactIdentity>, b: Option<&ProductArtifactIdentity>) -> (r:
    bool)
    ensures
        r == (option_product_view(*a) == optional_product_ref_view(b)),
{
    match (a, b) {
        (Some(x), Some(y)) => x.same_as(y),
        (None, None) => true,
        _ => false,
    }
}

pub proof fn lemma_each_artifact_depends_on_products(
    a: InstallReceiptView,
    b: InstallReceiptView,
    s: Seq<InstallArtifactEvidenceView>,
)
    requires
        a.source_product == b.source_product,
        a.target_product == b.target_product,
    ensures
        a.each_artifact_check(s) == b.each_artifact_check(s),
    decreases s.len(),
{
    if s.len() > 0 {
        lemma_each_artifact_depends_on_products(a, b, s.drop_first());
    }
}

/// A normal step that passes its own checks keeps the receipt well-formed.
pub proof fn lemma_advance_keeps_wf(v: InstallReceiptView, next: InstallState)
    requires
        v.wf(),
        v.advance_result(next) is Ok,
    ensures
        v.with_state(next).wf(),
{
    reveal(InstallReceiptView::validation);
    let w = v.with_state(next);
    lemma_each_artifact_depends_on_products(v, w, v.artifacts);
    assert(w.evidence_for_state_check(next) == v.evidence_for_state_check(next));
}

/// A pre-commit failure keeps the receipt well-formed.
pub proof fn lemma_abort_keeps_wf(v: InstallReceiptView, code: InstallFailureCode)
    requires
        v.wf(),
        v.open_check() is Ok,
        v.state.before_program_commit(),
    ensures
        v.aborted(code).wf(),
{
    reveal(InstallReceiptView::validation);
    let w = v.aborted(code);
    lemma_each_artifact_depends_on_products(v, w, v.artifacts);
    assert(w.effective_progress_state(w.state) == v.state);
    assert(w.evidence_for_state_check(w.state) == v.evidence_for_state_check(v.state));
}

/// A post-commit failure keeps the receipt well-formed.
pub proof fn lemma_rollback_keeps_wf(v: InstallReceiptView, code: InstallFailureCode)
    requires
        v.wf(),
        v.open_check() is Ok,
        v.state.needs_program_rollback(),
    ensures
        v.rollback_required(code).wf(),
{
    reveal(InstallReceiptView::validation);
    let w = v.rollback_required(code);
    lemma_each_artifact_depends_on_products(v, w, v.artifacts);
    assert(w.effective_progress_state(w.state) == v.state);
    assert(w.evidence_for_state_check(w.state) == v.evidence_for_state_check(v.state));
}

/// Restoring the programs keeps the receipt well-formed.
pub proof fn lemma_restore_keeps_wf(v: InstallReceiptView)
    requires
        v.wf(),
        v.state == InstallState::RollbackRequired,
    ensures
        v.with_state(InstallState::ProgramsRestored).wf(),
{
    reveal(InstallReceiptView::validation);
    let w = v.with_state(InstallState::ProgramsRestored);
    lemma_each_artifact_depends_on_products(v, w, v.artifacts);
    assert(w.evidence_for_state_check(w.state) == v.evidence_for_state_check(v.state));
}

/// Finishing the rollback keeps the receipt well-formed.
pub proof fn lemma_rolled_back_keeps_wf(v: InstallReceiptView)
    requires
        v.wf(),
        v.state == InstallState::ProgramsRestored,
    ensures
        (InstallReceiptView {
            manual_recovery_required: false,
            state: InstallState::RolledBack,
            ..v
        }).wf(),
{
    reveal(InstallReceiptView::validation);
    let w = InstallReceiptView { manual_recovery_required: false, state: InstallState::RolledBack, ..v };
    lemma_each_artifact_depends_on_products(v, w, v.artifacts);
    assert(w.evidence_for_state_check(w.state) == v.evidence_for_state_check(v.state));
}

/// Every successful unit result is `Ok(())`.
pub proof fn lemma_unit_ok<E>(r: Result<(), E>)
    requires
        r is Ok,
    ensures
        r == Ok::<(), E>(()),
{
    match r {
        Ok(u) => {
            let () = u;
        },
        Err(_) => {},
    }
}

pub proof fn lemma_insert_append_only(
    s: Seq<InstallArtifactEvidenceView>,
    e: InstallArtifactEvidenceView,
    p: int,
)
    requires
        0 <= p <= s.len(),
    ensures
        append_only(s, s.insert(p, e)),
        s.insert(p, e).len() > s.len(),
{
    let n = s.insert(p, e);
    assert forall|i: int| 0 <= i < s.len() implies occurs_in(n, #[trigger] s[i]) by {
        if i < p {
            assert(n[i] == s[i]);
        } else {
            assert(n[i + 1] == s[i]);
        }
    }
}

/// The evidence of a well-formed receipt is sorted by slot.
pub proof fn lemma_wf_sorted(v: InstallReceiptView)
    requires
        v.wf(),
    ensures
        slots_strictly_sorted(v.artifacts),
{
    reveal(InstallReceiptView::validation);
}

/// An open well-formed receipt carries no failure fields.
pub proof fn lemma_wf_open_has_no_failure(v: InstallReceiptView)
    requires
        v.wf(),
        v.open_check() is Ok,
    ensures
        v.failure_code is None,
        v.failure_after_state is None,
        !v.manual_recovery_required,
{
    reveal(InstallReceiptView::validation);
}

/// A well-formed receipt passes the failure-field check.
pub proof fn lemma_wf_failure_fields(v: InstallReceiptView)
    requires
        v.wf(),
    ensures
        v.failure_state_check() is Ok,
{
    reveal(InstallReceiptView::validation);
}

/// A well-formed receipt records every renamed bundle with the filesystem
/// identity it had before the rename: a preserved source is the installed
/// source, and an installed target is the staged target, for both programs.
pub proof fn lemma_wf_renames_keep_filesystem_identity(v: InstallReceiptView)
    requires
        v.wf(),
    ensures
        v.continuity_holds(InstallArtifactSlot::SourceManager, InstallArtifactSlot::BackupManager),
        v.continuity_holds(InstallArtifactSlot::SourceInputMethod, InstallArtifactSlot::BackupInputMethod),
        v.continuity_holds(InstallArtifactSlot::StagedManager, InstallArtifactSlot::InstalledManager),
        v.continuity_holds(InstallArtifactSlot::StagedInputMethod, InstallArtifactSlot::InstalledInputMethod),
{
    reveal(InstallReceiptView::validation);
}

impl InstallReceipt {
    /// A fresh receipt in `Prepared` for one operation.
    pub fn new(
        operation_id: String,
        previous_operation_id: Option<String>,
        operation_kind: InstallOperationKind,
        root_identity: InstallRootIdentity,
        source_product: Option<ProductArtifactIdentity>,
        target_product: Option<ProductArtifactIdentity>,
    ) -> (r: Result<Self, InstallReceiptError>)
        ensures
            ({
                let v = InstallReceiptView {
                    receipt_format: INSTALL_RECEIPT_FORMAT@,
                    operation_id: operation_id@,
                    previous_operation_id: option_text_view(previous_operation_id),
                    operation_kind,
                    root_identity,
                    source_product: option_product_view(source_product),
                    target_product: option_product_view(target_product),
                    state: InstallState::Prepared,
                    failure_code: None,
                    failure_after_state: None,
                    manual_recovery_required: false,
                    artifacts: Seq::empty(),
                };
                match r {
                    Ok(receipt) => receipt@ == v && v.wf(),
                    Err(e) => v.validation() == Err::<(), InstallReceiptError>(e),
                }
            }),
    {
        let receipt = InstallReceipt {
            receipt_format: INSTALL_RECEIPT_FORMAT.to_owned(),
            operation_id,
            previous_operation_id,
            operation_kind,
            root_identity,
            source_product,
            target_product,
            state: InstallState::Prepared,
            failure_code: None,
            failure_after_state: None,
            manual_recovery_required: false,
            artifacts: Vec::new(),
        };
        assert(evidence_views(receipt.artifacts@) =~= Seq::<InstallArtifactEvidenceView>::empty());
        match receipt.validate() {
            Ok(()) => Ok(receipt),
            Err(e) => Err(e),
        }
    }

    pub fn operation_id(&self) -> (r: &str)
        ensures
            r@ == self@.operation_id,
    {
        self.operation_id.as_str()
    }

    /// The operation this one follows, if any.
    pub fn previous_operation_id(&self) -> (r: Option<&str>)
        ensures
            match r {
                Some(t) => self@.previous_operation_id == Some(t@),
                None => self@.previous_operation_id is None,
            },
    {
        match &self.previous_operation_id {
            Some(t) => Some(t.as_str()),
            None => None,
        }
    }

    pub fn operation_kind(&self) -> (r: InstallOperationKind)
        ensures
            r == self@.operation_kind,
    {
        self.operation_kind
    }

    pub fn root_identity(&self) -> (r: &InstallRootIdentity)
        ensures
            *r == self@.root_identity,
    {
        &self.root_identity
    }

    pub fn source_product(&self) -> (r: Option<&ProductArtifactIdentity>)
        ensures
            optional_product_ref_view(r) == self@.source_product,
    {
        match &self.source_product {
            Some(p) => Some(p),
            None => None,
        }
    }

    pub fn target_product(&self) -> (r: Option<&ProductArtifactIdentity>)
        ensures
            optional_product_ref_view(r) == self@.target_product,
    {
        match &self.target_product {
            Some(p) => Some(p),
            None => None,
        }
    }

    /// The product left installed by a terminal receipt: the target once completed,
    /// the source once aborted or rolled back; none while the operation runs.
    pub fn installed_product(&self) -> (r: Option<&ProductArtifactIdentity>)
        ensures
            optional_product_ref_view(r) == self@.installed_product(),
    {
        match self.state {
            InstallState::Completed => self.target_product(),
            InstallState::AbortedPreserved | InstallState::RolledBack => self.source_product(),
            _ => None,
        }
    }

    pub fn state(&self) -> (r: InstallState)
        ensures
            r == self@.state,
    {
        self.state
    }

    pub fn failure_code(&self) -> (r: Option<InstallFailureCode>)
        ensures
            r == self@.failure_code,
    {
        self.failure_code
    }

    pub fn failure_after_state(&self) -> (r: Option<InstallState>)
        ensures
            r == self@.failure_after_state,
    {
        self.failure_after_state
    }

    pub fn manual_recovery_required(&self) -> (r: bool)
        ensures
            r == self@.manual_recovery_required,
    {
        self.manual_recovery_required
    }

    pub fn artifacts(&self) -> (r: &[InstallArtifactEvidence])
        ensures
            evidence_views(r@) == self@.artifacts,
    {
        self.artifacts.as_slice()
    }

    fn ensure_open(&self) -> (r: Result<(), InstallReceiptError>)
        ensures
            r == self@.open_check(),
    {
        if self.state.is_terminal() || matches!(
            self.state,
            InstallState::RollbackRequired | InstallState::ProgramsRestored
        ) {
            return Err(
                InstallReceiptError::invalid(
                    InstallReceiptField::State,
                    InstallReceiptReason::NotOpenForMutation,
                ),
            );
        }
        Ok(())
    }

    fn validate_artifact_recording_state(&self, slot: InstallArtifactSlot) -> (r: Result<
        (),
        InstallReceiptError,
    >)
        ensures
            r is Ok <==> self@.recording_state_allows(slot),
            r matches Err(e) ==> e == install_error(
                InstallReceiptField::ArtifactEvidence,
                InstallReceiptReason::ArtifactStateNotAllowed,
            ),
    {
        let allowed = match slot {
            InstallArtifactSlot::SourceManager | InstallArtifactSlot::SourceInputMethod
            | InstallArtifactSlot::StagedManager | InstallArtifactSlot::StagedInputMethod => self.state
                == InstallState::Quiesced,
            InstallArtifactSlot::BackupManager | InstallArtifactSlot::BackupInputMethod => self.state
                == InstallState::TargetStaged || (self.operation_kind
                == InstallOperationKind::RemovePrograms && self.state == InstallState::Quiesced),
            InstallArtifactSlot::InstalledManager => self.state == InstallState::SourcePreserved || (
            self.operation_kind == InstallOperationKind::FirstInstall && self.state
                == InstallState::TargetStaged),
            InstallArtifactSlot::InstalledInputMethod => self.state
                == InstallState::ManagerCommitted,
        };
        if allowed {
            Ok(())
        } else {
            Err(
                InstallReceiptError::invalid(
                    InstallReceiptField::ArtifactEvidence,
                    InstallReceiptReason::ArtifactStateNotAllowed,
                ),
            )
        }
    }

    /// Records evidence of a bundle in its slot, keeping the evidence sorted by slot.
    /// Refused when the receipt is not open, the slot is taken, the bundle is not the
    /// operation's, the state does not allow the slot, or the result fails validation;
    /// a refusal leaves the receipt unchanged.
    pub fn record_artifact(&mut self, evidence: InstallArtifactEvidence) -> (r: Result<
        (),
        InstallReceiptError,
    >)
        requires
            old(self)@.wf(),
        ensures
            r == old(self)@.record_result(evidence@),
            r is Ok ==> final(self)@ == old(self)@.with_artifacts(
                insert_by_slot(old(self)@.artifacts, evidence@),
            ),
            r is Err ==> final(self)@ == old(self)@,
            final(self)@.wf(),
            r is Ok ==> InstallReceiptView::can_replace(final(self)@, old(self)@),
    {
        let ghost v = self@;
        match self.ensure_open() {
            Err(e) => return Err(e),
            Ok(()) => {},
        }
        let slot = evidence.slot();
        if self.has_slot(slot) {
            return Err(
                InstallReceiptError::invalid(
                    InstallReceiptField::Artifacts,
                    InstallReceiptReason::SlotAlreadyRecorded,
                ),
            );
        }
        match self.validate_artifact_for_operation(&evidence) {
            Err(e) => return Err(e),
            Ok(()) => {},
        }
        match self.validate_artifact_recording_state(slot) {
            Err(err) => {
                assert(Err::<(), InstallReceiptError>(err) == v.record_result(evidence@));
                return Err(err);
            },
            Ok(()) => {},
        }
        let ghost s = v.artifacts;
        let ghost e = evidence@;
        proof {
            lemma_wf_sorted(v);
        }
        let p = self.insertion_point(slot);
        proof {
            lemma_insert_by_slot(s, e, p as int);
        }
        self.artifacts.insert(p, evidence);
        proof {
            assert(evidence_views(self.artifacts@) =~= s.insert(p as int, e));
            assert(self@ == v.with_artifacts(insert_by_slot(s, e)));
        }
        let ghost candidate = v.with_artifacts(insert_by_slot(s, e));
        assert(v.record_result(e) == candidate.validation());
        let checked = self.validate();
        assert(self@ == candidate);
        assert(checked == candidate.validation());
        match checked {
            Err(err) => {
                let _ = self.artifacts.remove(p);
                proof {
                    assert(evidence_views(self.artifacts@) =~= s);
                    assert(self@ == v);
                }
                assert(Err::<(), InstallReceiptError>(err) == v.record_result(e));
                Err(err)
            },
            Ok(()) => {
                proof {
                    lemma_insert_append_only(s, e, p as int);
                    lemma_wf_open_has_no_failure(v);
                }
                proof {
                    lemma_unit_ok(checked);
                }
                assert(Ok::<(), InstallReceiptError>(()) == v.record_result(e));
                Ok(())
            },
        }
    }

    /// Takes one step on the normal path, provided the evidence the next state
    /// requires is recorded.
    pub fn advance(&mut self, next: InstallState) -> (r: Result<(), InstallReceiptError>)
        requires
            old(self)@.wf(),
        ensures
            r == old(self)@.advance_result(next),
            r is Ok ==> final(self)@ == old(self)@.with_state(next),
            r is Err ==> final(self)@ == old(self)@,
            final(self)@.wf(),
            r is Ok ==> InstallReceiptView::can_replace(final(self)@, old(self)@),
    {
        let ghost v = self@;
        match self.ensure_open() {
            Err(e) => return Err(e),
            Ok(()) => {},
        }
        proof {
            lemma_wf_sorted(v);
        }
        if !normal_transition(self.operation_kind, self.state, next) {
            return Err(
                InstallReceiptError::invalid(
                    InstallReceiptField::State,
                    InstallReceiptReason::TransitionNotAllowed,
                ),
            );
        }
        match self.validate_evidence_for_state(next) {
            Err(e) => return Err(e),
            Ok(()) => {},
        }
        proof {
            lemma_advance_keeps_wf(v, next);
            lemma_wf_open_has_no_failure(v);
        }
        self.state = next;
        assert(self@ == v.with_state(next));
        proof {
            assert(append_only(v.artifacts, v.artifacts)) by {
                assert forall|i: int| 0 <= i < v.artifacts.len() implies occurs_in(
                    v.artifacts,
                    #[trigger] v.artifacts[i],
                ) by {}
            }
        }
        match self.validate() {
            Ok(()) => Ok(()),
            Err(e) => Err(e),
        }
    }

    /// Ends the operation before any program was replaced, keeping the source in place.
    pub fn abort_preserved(&mut self, failure_code: InstallFailureCode) -> (r: Result<
        (),
        InstallReceiptError,
    >)
        requires
            old(self)@.wf(),
        ensures
            r == (if old(self)@.open_check() is Err {
                old(self)@.open_check()
            } else if !old(self)@.state.before_program_commit() {
                Err(install_error(InstallReceiptField::State, InstallReceiptReason::ProgramChangesRequireRollback))
            } else {
                Ok(())
            }),
            r is Ok ==> final(self)@ == old(self)@.aborted(failure_code),
            r is Err ==> final(self)@ == old(self)@,
            final(self)@.wf(),
            r is Ok ==> InstallReceiptView::can_replace(final(self)@, old(self)@),
    {
        let ghost v = self@;
        match self.ensure_open() {
            Err(e) => return Err(e),
            Ok(()) => {},
        }
        if !self.state.is_before_program_commit() {
            return Err(
                InstallReceiptError::invalid(
                    InstallReceiptField::State,
                    InstallReceiptReason::ProgramChangesRequireRollback,
                ),
            );
        }
        proof {
            lemma_abort_keeps_wf(v, failure_code);
        }
        self.failure_after_state = Some(self.state);
        self.failure_code = Some(failure_code);
        self.manual_recovery_required = false;
        self.state = InstallState::AbortedPreserved;
        assert(self@ == v.aborted(failure_code));
        proof {
            assert forall|i: int| 0 <= i < v.artifacts.len() implies occurs_in(
                v.artifacts,
                #[trigger] v.artifacts[i],
            ) by {}
        }
        match self.validate() {
            Ok(()) => Ok(()),
            Err(e) => Err(e),
        }
    }

    /// Records a failure after a program was replaced; the programs must be restored.
    pub fn require_rollback(&mut self, failure_code: InstallFailureCode) -> (r: Result<
        (),
        InstallReceiptError,
    >)
        requires
            old(self)@.wf(),
        ensures
            r == (if old(self)@.open_check() is Err {
                old(self)@.open_check()
            } else if !old(self)@.state.needs_program_rollback() {
                Err(install_error(InstallReceiptField::State, InstallReceiptReason::RollbackRequiresCommittedChange))
            } else {
                Ok(())
            }),
            r is Ok ==> final(self)@ == old(self)@.rollback_required(failure_code),
            r is Err ==> final(self)@ == old(self)@,
            final(self)@.wf(),
            r is Ok ==> InstallReceiptView::can_replace(final(self)@, old(self)@),
    {
        let ghost v = self@;
        match self.ensure_open() {
            Err(e) => return Err(e),
            Ok(()) => {},
        }
        if !self.state.requires_program_rollback() {
            return Err(
                InstallReceiptError::invalid(
                    InstallReceiptField::State,
                    InstallReceiptReason::RollbackRequiresCommittedChange,
                ),
            );
        }
        proof {
            lemma_rollback_keeps_wf(v, failure_code);
        }
        self.failure_after_state = Some(self.state);
        self.failure_code = Some(failure_code);
        self.manual_recovery_required = true;
        self.state = InstallState::RollbackRequired;
        assert(self@ == v.rollback_required(failure_code));
        proof {
            assert forall|i: int| 0 <= i < v.artifacts.len() implies occurs_in(
                v.artifacts,
                #[trigger] v.artifacts[i],
            ) by {}
        }
        match self.validate() {
            Ok(()) => Ok(()),
            Err(e) => Err(e),
        }
    }

    /// Records that both programs were restored after a rollback was required.
    pub fn mark_programs_restored(&mut self) -> (r: Result<(), InstallReceiptError>)
        requires
            old(self)@.wf(),
        ensures
            r is Ok <==> old(self)@.state == InstallState::RollbackRequired,
            r matches Err(e) ==> e == install_error(
                InstallReceiptField::State,
                InstallReceiptReason::RestoreRequiresRollbackRequired,
            ),
            r is Ok ==> final(self)@ == old(self)@.with_state(InstallState::ProgramsRestored),
            r is Err ==> final(self)@ == old(self)@,
            final(self)@.wf(),
            r is Ok ==> InstallReceiptView::can_replace(final(self)@, old(self)@),
    {
        let ghost v = self@;
        if self.state != InstallState::RollbackRequired {
            return Err(
                InstallReceiptError::invalid(
                    InstallReceiptField::State,
                    InstallReceiptReason::RestoreRequiresRollbackRequired,
                ),
            );
        }
        proof {
            lemma_restore_keeps_wf(v);
            lemma_wf_failure_fields(v);
        }
        self.state = InstallState::ProgramsRestored;
        assert(self@ == v.with_state(InstallState::ProgramsRestored));
        proof {
            assert forall|i: int| 0 <= i < v.artifacts.len() implies occurs_in(
                v.artifacts,
                #[trigger] v.artifacts[i],
            ) by {}
        }
        match self.validate() {
            Ok(()) => Ok(()),
            Err(e) => Err(e),
        }
    }

    /// Completes a rollback whose programs were restored; the receipt becomes terminal.
    pub fn mark_rolled_back(&mut self) -> (r: Result<(), InstallReceiptError>)
        requires
            old(self)@.wf(),
        ensures
            r is Ok <==> old(self)@.state == InstallState::ProgramsRestored,
            r matches Err(e) ==> e == install_error(
                InstallReceiptField::State,
                InstallReceiptReason::RollbackCompletionRequiresRestored,
            ),
            r is Ok ==> final(self)@ == (InstallReceiptView {
                manual_recovery_required: false,
                state: InstallState::RolledBack,
                ..old(self)@
            }),
            r is Err ==> final(self)@ == old(self)@,
            final(self)@.wf(),
            r is Ok ==> InstallReceiptView::can_replace(final(self)@, old(self)@),
    {
        let ghost v = self@;
        if self.state != InstallState::ProgramsRestored {
            return Err(
                InstallReceiptError::invalid(
                    InstallReceiptField::State,
                    InstallReceiptReason::RollbackCompletionRequiresRestored,
                ),
            );
        }
        proof {
            lemma_rolled_back_keeps_wf(v);
            lemma_wf_failure_fields(v);
        }
        self.manual_recovery_required = false;
        self.state = InstallState::RolledBack;
        assert(self@ == (InstallReceiptView {
            manual_recovery_required: false,
            state: InstallState::RolledBack,
            ..v
        }));
        proof {
            assert forall|i: int| 0 <= i < v.artifacts.len() implies occurs_in(
                v.artifacts,
                #[trigger] v.artifacts[i],
            ) by {}
        }
        match self.validate() {
            Ok(()) => Ok(()),
            Err(e) => Err(e),
        }
    }

    /// Where evidence in `slot` goes to keep the evidence sorted.
    fn insertion_point(&self, slot: InstallArtifactSlot) -> (p: usize)
        requires
            slots_strictly_sorted(self@.artifacts),
        ensures
            p <= self@.artifacts.len(),
            forall|i: int| 0 <= i < p ==> #[trigger] self@.artifacts[i].slot.rank_spec() <= slot.rank_spec(),
            forall|i: int|
                p <= i < self@.artifacts.len() ==> #[trigger] self@.artifacts[i].slot.rank_spec() > slot.rank_spec(),
    {
        let ghost s = self@.artifacts;
        let rank = slot.rank();
        let mut p = self.artifacts.len();
        while p > 0 && self.artifacts[p - 1].slot().rank() > rank
            invariant
                p <= self.artifacts@.len(),
                s == self@.artifacts,
                s == evidence_views(self.artifacts@),
                rank == slot.rank_spec(),
                forall|i: int| p <= i < s.len() ==> #[trigger] s[i].slot.rank_spec() > rank,
            decreases p,
        {
            p = p - 1;
        }
        proof {
            assert forall|i: int| 0 <= i < p implies #[trigger] s[i].slot.rank_spec() <= rank by {
                if i < p - 1 {
                    assert(s[i].slot.rank_spec() < s[p - 1].slot.rank_spec());
                }
            }
        }
        p
    }

    fn can_start_after(&self, current: &Self) -> (r: bool)
        ensures
            r == InstallReceiptView::can_start_after(self@, current@),
    {
        let previous_matches = match &self.previous_operation_id {
            Some(previous) => *previous == current.operation_id,
            None => false,
        };
        current.state.is_terminal() && self.state == InstallState::Prepared && self.root_identity
            == current.root_identity && previous_matches && same_product_as_ref(
            &self.source_product,
            current.installed_product(),
        ) && self.artifacts.len() == 0 && self.failure_code.is_none()
            && self.failure_after_state.is_none() && !self.manual_recovery_required
    }

    fn replacement_transition(current: &Self, next: &Self) -> (r: bool)
        ensures
            r == InstallReceiptView::replacement_transition(current@, next@),
    {
        if normal_transition(current.operation_kind, current.state, next.state) {
            return current.failure_code.is_none() && next.failure_code.is_none()
                && current.failure_after_state.is_none() && next.failure_after_state.is_none()
                && !current.manual_recovery_required && !next.manual_recovery_required;
        }
        if next.state == InstallState::AbortedPreserved && current.state.is_before_program_commit() {
            return next.failure_code.is_some() && same_optional_state(
                next.failure_after_state,
                Some(current.state),
            ) && !next.manual_recovery_required;
        }
        if next.state == InstallState::RollbackRequired && current.state.requires_program_rollback() {
            return next.failure_code.is_some() && same_optional_state(
                next.failure_after_state,
                Some(current.state),
            ) && next.manual_recovery_required;
        }
        if current.state == InstallState::RollbackRequired && next.state
            == InstallState::ProgramsRestored {
            return same_failure_code(current.failure_code, next.failure_code) && same_optional_state(
                current.failure_after_state,
                next.failure_after_state,
            ) && next.manual_recovery_required;
        }
        if current.state == InstallState::ProgramsRestored && next.state == InstallState::RolledBack {
            return same_failure_code(current.failure_code, next.failure_code) && same_optional_state(
                current.failure_after_state,
                next.failure_after_state,
            ) && !next.manual_recovery_required;
        }
        false
    }

    /// Whether this receipt may be persisted in place of `current`.
    pub fn can_replace(&self, current: &Self) -> (r: bool)
        ensures
            r == InstallReceiptView::can_replace(self@, current@),
    {
        if self.validate().is_err() || current.validate().is_err() {
            return false;
        }
        if self.operation_id != current.operation_id {
            return self.can_start_after(current);
        }
        if self.receipt_format != current.receipt_format || !same_optional_text(
            &self.previous_operation_id,
            &current.previous_operation_id,
        ) || self.operation_kind != current.operation_kind || self.root_identity
            != current.root_identity || !same_optional_product(
            &self.source_product,
            &current.source_product,
        ) || !same_optional_product(&self.target_product, &current.target_product)
            || !artifacts_are_append_only(&current.artifacts, &self.artifacts) {
            return false;
        }
        if self.state == current.state {
            return same_failure_code(self.failure_code, current.failure_code) && same_optional_state(
                self.failure_after_state,
                current.failure_after_state,
            ) && self.manual_recovery_required == current.manual_recovery_required
                && self.artifacts.len() > current.artifacts.len();
        }
        Self::replacement_transition(current, self)
    }
}


/// Position of a state along every path an operation can take: the normal path,
/// then the failure states in the order they are reached.
pub open spec fn step_order(state: InstallState) -> int {
    match state {
        InstallState::AbortedPreserved => 10,
        InstallState::RollbackRequired => 10,
        InstallState::ProgramsRestored => 11,
        InstallState::RolledBack => 12,
        _ => normal_order(state),
    }
}

/// Within one operation a replacement never moves back: it either moves to a later
/// state or stays in the same state with strictly more evidence.
pub proof fn lemma_install_replacement_progresses(next: InstallReceiptView, current: InstallReceiptView)
    requires
        InstallReceiptView::can_replace(next, current),
        next.operation_id == current.operation_id,
    ensures
        step_order(next.state) > step_order(current.state) || (next.state == current.state
            && next.artifacts.len() > current.artifacts.len()),
{
}

/// No two install receipts can each replace the other.
pub proof fn lemma_install_replacement_is_not_reversible(a: InstallReceiptView, b: InstallReceiptView)
    requires
        InstallReceiptView::can_replace(a, b),
    ensures
        !InstallReceiptView::can_replace(b, a),
{
    if a.operation_id == b.operation_id && InstallReceiptView::can_replace(b, a) {
        lemma_install_replacement_progresses(a, b);
        lemma_install_replacement_progresses(b, a);
    }
}

/// Once an operation is terminal its state is final: the only replacement in
/// another state is a fresh `Prepared` operation that names it as predecessor.
pub proof fn lemma_install_terminal_state_is_final(next: InstallReceiptView, current: InstallReceiptView)
    requires
        current.state.terminal(),
        InstallReceiptView::can_replace(next, current),
    ensures
        next.operation_id == current.operation_id ==> next.state == current.state,
        next.operation_id != current.operation_id ==> next.state == InstallState::Prepared
            && next.previous_operation_id == Some(current.operation_id),
{
}


fn same_evidence_lists(a: &Vec<InstallArtifactEvidence>, b: &Vec<InstallArtifactEvidence>) -> (r: bool)
    ensures
        r == (evidence_views(a@) == evidence_views(b@)),
{
    if a.len() != b.len() {
        return false;
    }
    let ghost x = evidence_views(a@);
    let ghost y = evidence_views(b@);
    let mut i: usize = 0;
    while i < a.len()
        invariant
            a@.len() == b@.len(),
            i <= a@.len(),
            x == evidence_views(a@),
            y == evidence_views(b@),
            forall|k: int| 0 <= k < i ==> x[k] == y[k],
        decreases a@.len() - i,
    {
        if !a[i].same_as(&b[i]) {
            assert(x[i as int] != y[i as int]);
            return false;
        }
        i = i + 1;
    }
    assert(x =~= y);
    true
}

impl InstallReceipt {
    /// Whether two receipts hold the same values.
    pub fn same_as(&self, other: &Self) -> (r: bool)
        ensures
            r == (self@ == other@),
    {
        self.receipt_format == other.receipt_format && self.operation_id == other.operation_id
            && same_optional_text(&self.previous_operation_id, &other.previous_operation_id)
            && self.operation_kind == other.operation_kind && self.root_identity == other.root_identity
            && same_optional_product(&self.source_product, &other.source_product) && same_optional_product(
            &self.target_product,
            &other.target_product,
        ) && self.state == other.state && same_failure_code(self.failure_code, other.failure_code)
            && same_optional_state(self.failure_after_state, other.failure_after_state)
            && self.manual_recovery_required == other.manual_recovery_required && same_evidence_lists(
            &self.artifacts,
            &other.artifacts,
        )
    }
}


pub open spec fn evidence_list_view(v: Vec<InstallArtifactEvidence>) -> Seq<InstallArtifactEvidenceView> {
    evidence_views(v@)
}

impl InstallReceipt {
    /// A receipt read back from storage, accepted only if it passes every check.
    pub fn from_parts(
        receipt_format: String,
        operation_id: String,
        previous_operation_id: Option<String>,
        operation_kind: InstallOperationKind,
        root_identity: InstallRootIdentity,
        source_product: Option<ProductArtifactIdentity>,
        target_product: Option<ProductArtifactIdentity>,
        state: InstallState,
        failure_code: Option<InstallFailureCode>,
        failure_after_state: Option<InstallState>,
        manual_recovery_required: bool,
        artifacts: Vec<InstallArtifactEvidence>,
    ) -> (r: Result<Self, InstallReceiptError>)
        ensures
            ({
                let v = InstallReceiptView {
                    receipt_format: receipt_format@,
                    operation_id: operation_id@,
                    previous_operation_id: option_text_view(previous_operation_id),
                    operation_kind,
                    root_identity,
                    source_product: option_product_view(source_product),
                    target_product: option_product_view(target_product),
                    state,
                    failure_code,
                    failure_after_state,
                    manual_recovery_required,
                    artifacts: evidence_list_view(artifacts),
                };
                match r {
                    Ok(receipt) => receipt@ == v && v.wf(),
                    Err(e) => v.validation() == Err::<(), InstallReceiptError>(e),
                }
            }),
    {
        let receipt = InstallReceipt {
            receipt_format,
            operation_id,
            previous_operation_id,
            operation_kind,
            root_identity,
            source_product,
            target_product,
            state,
            failure_code,
            failure_after_state,
            manual_recovery_required,
            artifacts,
        };
        match receipt.validate() {
            Ok(()) => Ok(receipt),
            Err(e) => Err(e),
        }
    }

    pub fn receipt_format(&self) -> (r: &str)
        ensures
            r@ == self@.receipt_format,
    {
        self.receipt_format.as_str()
    }
}

} // verus!

//! Finishing an install operation once its programs are committed: each of the
//! last two states is reached only after the final state was validated.

use vstd::prelude::*;

use crate::install_gate::InstallFilesystemErrorCode;
use crate::install_product::{InstallOperationKind, InstallState};
use crate::install_receipt::{normal_transition_spec, InstallReceipt, InstallReceiptView};
use crate::install_switch::ProgramSwitchErrorCode;

verus! {

/// The validation that precedes each of the last two states.
#[derive(Debug, Clone, Copy, PartialEq, Eq, Structural)]
pub enum InstallFinalizationValidationStage {
    BeforeFinalVerified,
    BeforeCompleted,
}

/// Validates the programs found at the targets against the receipt: the
/// installed targets after a commit, the restored sources after a rollback.
pub trait InstallProgramValidationPort {
    fn validate_installed_targets(&mut self, receipt: &InstallReceipt) -> bool;

    fn validate_restored_sources(&mut self, receipt: &InstallReceipt) -> bool;
}

/// Validates the installed programs before the receipt may move on.
pub trait InstallFinalizationPort {
    fn validate_final_state(&mut self, receipt: &InstallReceipt, stage: InstallFinalizationValidationStage) -> bool;
}

#[derive(Debug, Clone, Copy, PartialEq, Eq, Structural)]
pub enum InstallFinalizationError {
    InstallFilesystem(InstallFilesystemErrorCode),
    ProgramSwitch(ProgramSwitchErrorCode),
    InvalidState,
    FinalStateNotProven(InstallFinalizationValidationStage),
}

impl InstallFinalizationError {
    pub open spec fn message_spec(self) -> &'static str {
        match self {
            InstallFinalizationError::InstallFilesystem(_) => "install finalization filesystem failure",
            InstallFinalizationError::ProgramSwitch(_) => "install finalization program binding failure",
            InstallFinalizationError::InvalidState => "install finalization state is inconsistent",
            InstallFinalizationError::FinalStateNotProven(_) => "install final state was not proven",
        }
    }

    pub fn message(&self) -> (r: &'static str)
        ensures
            r == self.message_spec(),
    {
        match self {
            InstallFinalizationError::InstallFilesystem(_) => "install finalization filesystem failure",
            InstallFinalizationError::ProgramSwitch(_) => "install finalization program binding failure",
            InstallFinalizationError::InvalidState => "install finalization state is inconsistent",
            InstallFinalizationError::FinalStateNotProven(_) => "install final state was not proven",
        }
    }
}

/// The states from which an operation of `kind` can be finalized: after its
/// programs (and, for an upgrade, its data) are settled.
pub open spec fn finalization_state_spec(kind: InstallOperationKind, state: InstallState) -> bool {
    match kind {
        InstallOperationKind::Upgrade => state == InstallState::DataSettled || state == InstallState::FinalVerified
            || state == InstallState::Completed,
        _ => state == InstallState::ProgramsCommitted || state == InstallState::FinalVerified || state
            == InstallState::Completed,
    }
}

pub fn valid_finalization_state(kind: InstallOperationKind, state: InstallState) -> (r: bool)
    ensures
        r == finalization_state_spec(kind, state),
{
    match kind {
        InstallOperationKind::Upgrade => matches!(
            state,
            InstallState::DataSettled | InstallState::FinalVerified | InstallState::Completed
        ),
        InstallOperationKind::FirstInstall | InstallOperationKind::Repair | InstallOperationKind::RemovePrograms => {
            matches!(state, InstallState::ProgramsCommitted | InstallState::FinalVerified | InstallState::Completed)
        },
    }
}

/// What finalization does next from a receipt's state.
#[derive(Debug, Clone, Copy, PartialEq, Eq, Structural)]
pub enum FinalizationPlan {
    /// The receipt is complete; the final state is validated once more.
    ConfirmCompleted,
    /// Validate at this stage, then advance.
    Advance(InstallFinalizationValidationStage),
}

pub open spec fn finalization_plan_spec(kind: InstallOperationKind, state: InstallState) -> Result<
    FinalizationPlan,
    InstallFinalizationError,
> {
    if !finalization_state_spec(kind, state) {
        Err(InstallFinalizationError::InvalidState)
    } else if state == InstallState::Completed {
        Ok(FinalizationPlan::ConfirmCompleted)
    } else if state == InstallState::FinalVerified {
        Ok(FinalizationPlan::Advance(InstallFinalizationValidationStage::BeforeCompleted))
    } else {
        Ok(FinalizationPlan::Advance(InstallFinalizationValidationStage::BeforeFinalVerified))
    }
}

pub fn finalization_plan(kind: InstallOperationKind, state: InstallState) -> (r: Result<
    FinalizationPlan,
    InstallFinalizationError,
>)
    ensures
        r == finalization_plan_spec(kind, state),
{
    if !valid_finalization_state(kind, state) {
        return Err(InstallFinalizationError::InvalidState);
    }
    match state {
        InstallState::Completed => Ok(FinalizationPlan::ConfirmCompleted),
        InstallState::FinalVerified => Ok(FinalizationPlan::Advance(InstallFinalizationValidationStage::BeforeCompleted)),
        _ => Ok(FinalizationPlan::Advance(InstallFinalizationValidationStage::BeforeFinalVerified)),
    }
}

/// The state a validated stage leads to.
pub open spec fn stage_target(stage: InstallFinalizationValidationStage) -> InstallState {
    match stage {
        InstallFinalizationValidationStage::BeforeFinalVerified => InstallState::FinalVerified,
        InstallFinalizationValidationStage::BeforeCompleted => InstallState::Completed,
    }
}

/// Takes the step of `stage` once the final state was `validated`; without the
/// validation, or when the receipt refuses the step, nothing changes.
pub fn apply_finalization_stage(
    receipt: &mut InstallReceipt,
    stage: InstallFinalizationValidationStage,
    validated: bool,
) -> (r: Result<(), InstallFinalizationError>)
    requires
        old(receipt)@.wf(),
    ensures
        !validated ==> r == Err::<(), InstallFinalizationError>(InstallFinalizationError::FinalStateNotProven(stage)),
        validated ==> (r is Ok <==> old(receipt)@.advance_result(stage_target(stage)) is Ok),
        validated && r is Err ==> r == Err::<(), InstallFinalizationError>(InstallFinalizationError::InvalidState),
        r is Ok ==> final(receipt)@ == old(receipt)@.with_state(stage_target(stage)) && validated,
        r is Ok ==> InstallReceiptView::can_replace(final(receipt)@, old(receipt)@),
        r is Err ==> final(receipt)@ == old(receipt)@,
        final(receipt)@.wf(),
{
    if !validated {
        return Err(InstallFinalizationError::FinalStateNotProven(stage));
    }
    let next = match stage {
        InstallFinalizationValidationStage::BeforeFinalVerified => InstallState::FinalVerified,
        InstallFinalizationValidationStage::BeforeCompleted => InstallState::Completed,
    };
    match receipt.advance(next) {
        Ok(()) => Ok(()),
        Err(_) => Err(InstallFinalizationError::InvalidState),
    }
}

/// Finalization from any state it accepts takes at most two validated steps, the
/// last one into `Completed`; it never leaves that state.
pub proof fn lemma_finalization_ends_completed(kind: InstallOperationKind, state: InstallState)
    requires
        finalization_state_spec(kind, state),
    ensures
        finalization_plan_spec(kind, state) matches Ok(FinalizationPlan::Advance(stage)) ==> (stage_target(stage)
            == InstallState::Completed || finalization_plan_spec(kind, stage_target(stage)) == Ok::<
            FinalizationPlan,
            InstallFinalizationError,
        >(FinalizationPlan::Advance(InstallFinalizationValidationStage::BeforeCompleted))),
        finalization_plan_spec(kind, InstallState::Completed) == Ok::<FinalizationPlan, InstallFinalizationError>(
            FinalizationPlan::ConfirmCompleted,
        ),
{
}

/// Finalization accepts exactly the receipts whose normal path may go on to
/// `FinalVerified` next, and those already past it: every operation whose
/// programs (and, for an upgrade, data) are settled can be finalized. Each step it
/// plans is a step of the operation's normal path. (Only an upgrade ever passes
/// through `DataSettled`.)
pub proof fn lemma_finalization_accepts_settled_operations(kind: InstallOperationKind, state: InstallState)
    requires
        state == InstallState::DataSettled ==> kind == InstallOperationKind::Upgrade,
    ensures
        finalization_state_spec(kind, state) <==> (normal_transition_spec(kind, state, InstallState::FinalVerified)
            || state == InstallState::FinalVerified || state == InstallState::Completed),
        finalization_plan_spec(kind, state) matches Ok(FinalizationPlan::Advance(stage)) ==> normal_transition_spec(
            kind,
            state,
            stage_target(stage),
        ),
        finalization_plan_spec(kind, state) is Ok <==> finalization_state_spec(kind, state),
{
}

} // verus!

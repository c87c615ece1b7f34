//! Whether a program may start, and what state an installation is in, judged from
//! the install receipt and from what an inspection of the data root found.

use vstd::prelude::*;

use crate::install_product::{
    InstallFailureCode, InstallOperationKind, InstallRootIdentity, InstallState,
    RunningProgramIdentity, RunningProgramIdentityView,
};
use crate::install_receipt::{InstallReceipt, InstallReceiptView};

verus! {

#[derive(Debug, Clone, Copy, PartialEq, Eq, Structural)]
pub enum InstallStartupGateDecision {
    AllowedFirstLaunch,
    AllowedNoInstallState,
    AllowedTerminalReceipt,
    BlockedInstallInProgress,
    FailedClosed,
}

#[derive(Debug, Clone, Copy, PartialEq, Eq, Structural)]
pub enum InstallStartupGateErrorCode {
    NoError,
    InstallInProgress,
    ActiveGuard,
    UnsafeDataRoot,
    UnsafeStateDirectory,
    InterruptedReceipt,
    InvalidReceipt,
    UnexpectedStateObject,
    RootIdentityChanged,
    ProgramIdentityChanged,
    RemovedProgram,
    Io,
}

#[derive(Debug, Clone, Copy, PartialEq, Eq, Structural)]
pub enum InstallStatusDecision {
    ReadyFirstLaunch,
    ReadyNoInstallState,
    OperationInProgress,
    TerminalReceipt,
    FailedClosed,
}

pub struct InstallStartupGateResultView {
    pub decision: InstallStartupGateDecision,
    pub error_code: InstallStartupGateErrorCode,
    pub receipt_state: Option<InstallState>,
}

/// The decision on one program start.
#[derive(Debug, Clone, Copy, PartialEq, Eq)]
pub struct InstallStartupGateResult {
    decision: InstallStartupGateDecision,
    error_code: InstallStartupGateErrorCode,
    receipt_state: Option<InstallState>,
}

impl View for InstallStartupGateResult {
    type V = InstallStartupGateResultView;

    closed spec fn view(&self) -> InstallStartupGateResultView {
        InstallStartupGateResultView {
            decision: self.decision,
            error_code: self.error_code,
            receipt_state: self.receipt_state,
        }
    }
}

/// Decisions that let the program start.
pub open spec fn startup_allowed(decision: InstallStartupGateDecision) -> bool {
    decision is AllowedFirstLaunch || decision is AllowedNoInstallState
        || decision is AllowedTerminalReceipt
}

impl InstallStartupGateResult {
    pub fn decision(self) -> (r: InstallStartupGateDecision)
        ensures
            r == self@.decision,
    {
        self.decision
    }

    pub fn error_code(self) -> (r: InstallStartupGateErrorCode)
        ensures
            r == self@.error_code,
    {
        self.error_code
    }

    pub fn receipt_state(self) -> (r: Option<InstallState>)
        ensures
            r == self@.receipt_state,
    {
        self.receipt_state
    }

    pub fn is_allowed(self) -> (r: bool)
        ensures
            r == startup_allowed(self@.decision),
    {
        matches!(
            self.decision,
            InstallStartupGateDecision::AllowedFirstLaunch
                | InstallStartupGateDecision::AllowedNoInstallState
                | InstallStartupGateDecision::AllowedTerminalReceipt
        )
    }
}

pub struct InstallStatusResultView {
    pub decision: InstallStatusDecision,
    pub error_code: InstallStartupGateErrorCode,
    pub operation_kind: Option<InstallOperationKind>,
    pub receipt_state: Option<InstallState>,
    pub failure_code: Option<InstallFailureCode>,
    pub manual_recovery_required: bool,
}

/// What an inspection reports of the installation, without deciding on a start.
#[derive(Debug, Clone, Copy, PartialEq, Eq)]
pub struct InstallStatusResult {
    decision: InstallStatusDecision,
    error_code: InstallStartupGateErrorCode,
    operation_kind: Option<InstallOperationKind>,
    receipt_state: Option<InstallState>,
    failure_code: Option<InstallFailureCode>,
    manual_recovery_required: bool,
}

impl View for InstallStatusResult {
    type V = InstallStatusResultView;

    closed spec fn view(&self) -> InstallStatusResultView {
        InstallStatusResultView {
            decision: self.decision,
            error_code: self.error_code,
            operation_kind: self.operation_kind,
            receipt_state: self.receipt_state,
            failure_code: self.failure_code,
            manual_recovery_required: self.manual_recovery_required,
        }
    }
}

impl InstallStatusResult {
    pub fn decision(self) -> (r: InstallStatusDecision)
        ensures
            r == self@.decision,
    {
        self.decision
    }

    pub fn error_code(self) -> (r: InstallStartupGateErrorCode)
        ensures
            r == self@.error_code,
    {
        self.error_code
    }

    pub fn operation_kind(self) -> (r: Option<InstallOperationKind>)
        ensures
            r == self@.operation_kind,
    {
        self.operation_kind
    }

    pub fn receipt_state(self) -> (r: Option<InstallState>)
        ensures
            r == self@.receipt_state,
    {
        self.receipt_state
    }

    pub fn failure_code(self) -> (r: Option<InstallFailureCode>)
        ensures
            r == self@.failure_code,
    {
        self.failure_code
    }

    pub fn manual_recovery_required(self) -> (r: bool)
        ensures
            r == self@.manual_recovery_required,
    {
        self.manual_recovery_required
    }
}

/// The start decision for a program, given the receipt on disk: a running operation
/// blocks; a terminal receipt allows exactly the product it left installed; a
/// completed removal blocks every program.
pub open spec fn startup_decision_for_receipt(
    receipt: InstallReceiptView,
    running: RunningProgramIdentityView,
) -> InstallStartupGateResultView {
    if !receipt.state.terminal() {
        InstallStartupGateResultView {
            decision: InstallStartupGateDecision::BlockedInstallInProgress,
            error_code: InstallStartupGateErrorCode::InstallInProgress,
            receipt_state: Some(receipt.state),
        }
    } else {
        match receipt.installed_product() {
            Some(product) => if product.matches_running(running) {
                InstallStartupGateResultView {
                    decision: InstallStartupGateDecision::AllowedTerminalReceipt,
                    error_code: InstallStartupGateErrorCode::NoError,
                    receipt_state: Some(receipt.state),
                }
            } else {
                InstallStartupGateResultView {
                    decision: InstallStartupGateDecision::FailedClosed,
                    error_code: InstallStartupGateErrorCode::ProgramIdentityChanged,
                    receipt_state: Some(receipt.state),
                }
            },
            None => if receipt.operation_kind == InstallOperationKind::RemovePrograms
                && receipt.state == InstallState::Completed {
                InstallStartupGateResultView {
                    decision: InstallStartupGateDecision::FailedClosed,
                    error_code: InstallStartupGateErrorCode::RemovedProgram,
                    receipt_state: Some(receipt.state),
                }
            } else {
                InstallStartupGateResultView {
                    decision: InstallStartupGateDecision::FailedClosed,
                    error_code: InstallStartupGateErrorCode::ProgramIdentityChanged,
                    receipt_state: Some(receipt.state),
                }
            },
        }
    }
}

/// Judges a program start against the install receipt.
pub fn evaluate_install_startup_receipt(
    receipt: &InstallReceipt,
    running: &RunningProgramIdentity,
) -> (r: InstallStartupGateResult)
    ensures
        r@ == startup_decision_for_receipt(receipt@, running@),
{
    let state = receipt.state();
    if !state.is_terminal() {
        return InstallStartupGateResult {
            decision: InstallStartupGateDecision::BlockedInstallInProgress,
            error_code: InstallStartupGateErrorCode::InstallInProgress,
            receipt_state: Some(state),
        };
    }
    match receipt.installed_product() {
        Some(product) => {
            if product.matches_running(running) {
                InstallStartupGateResult {
                    decision: InstallStartupGateDecision::AllowedTerminalReceipt,
                    error_code: InstallStartupGateErrorCode::NoError,
                    receipt_state: Some(state),
                }
            } else {
                InstallStartupGateResult {
                    decision: InstallStartupGateDecision::FailedClosed,
                    error_code: InstallStartupGateErrorCode::ProgramIdentityChanged,
                    receipt_state: Some(state),
                }
            }
        },
        None => {
            if receipt.operation_kind() == InstallOperationKind::RemovePrograms && state
                == InstallState::Completed {
                InstallStartupGateResult {
                    decision: InstallStartupGateDecision::FailedClosed,
                    error_code: InstallStartupGateErrorCode::RemovedProgram,
                    receipt_state: Some(state),
                }
            } else {
                InstallStartupGateResult {
                    decision: InstallStartupGateDecision::FailedClosed,
                    error_code: InstallStartupGateErrorCode::ProgramIdentityChanged,
                    receipt_state: Some(state),
                }
            }
        },
    }
}

#[derive(Debug, Clone, Copy, PartialEq, Eq, Structural)]
pub enum InstallFilesystemErrorCode {
    UnsafeDataRoot,
    UnsafeStateDirectory,
    UnexpectedStateObject,
    InvalidReceipt,
    InvalidReceiptReplacement,
    InterruptedReceiptWrite,
    OperationAlreadyActive,
    IdentityChanged,
    Io,
}

impl InstallFilesystemErrorCode {
    /// A sentence describing the failure.
    pub open spec fn message_spec(self) -> &'static str {
        match self {
            InstallFilesystemErrorCode::UnsafeDataRoot => "install data root is unsafe",
            InstallFilesystemErrorCode::UnsafeStateDirectory => "install state directory is unsafe",
            InstallFilesystemErrorCode::UnexpectedStateObject => "install state directory contains an unexpected object",
            InstallFilesystemErrorCode::InvalidReceipt => "install receipt is invalid",
            InstallFilesystemErrorCode::InvalidReceiptReplacement => "install receipt replacement is invalid",
            InstallFilesystemErrorCode::InterruptedReceiptWrite => "install receipt write requires recovery",
            InstallFilesystemErrorCode::OperationAlreadyActive => "another install operation is active",
            InstallFilesystemErrorCode::IdentityChanged => "install filesystem identity changed",
            InstallFilesystemErrorCode::Io => "install filesystem operation failed",
        }
    }

    /// A sentence describing the failure.
    pub fn message(self) -> (r: &'static str)
        ensures
            r == self.message_spec(),
    {
        match self {
            InstallFilesystemErrorCode::UnsafeDataRoot => "install data root is unsafe",
            InstallFilesystemErrorCode::UnsafeStateDirectory => "install state directory is unsafe",
            InstallFilesystemErrorCode::UnexpectedStateObject => "install state directory contains an unexpected object",
            InstallFilesystemErrorCode::InvalidReceipt => "install receipt is invalid",
            InstallFilesystemErrorCode::InvalidReceiptReplacement => "install receipt replacement is invalid",
            InstallFilesystemErrorCode::InterruptedReceiptWrite => "install receipt write requires recovery",
            InstallFilesystemErrorCode::OperationAlreadyActive => "another install operation is active",
            InstallFilesystemErrorCode::IdentityChanged => "install filesystem identity changed",
            InstallFilesystemErrorCode::Io => "install filesystem operation failed",
        }
    }
}

/// A failure of the install receipt store, by code.
#[derive(Debug, Clone, Copy, PartialEq, Eq, Structural)]
pub struct InstallFilesystemError {
    code: InstallFilesystemErrorCode,
}

impl InstallFilesystemError {
    pub closed spec fn code_spec(self) -> InstallFilesystemErrorCode {
        self.code
    }

    pub fn new(code: InstallFilesystemErrorCode) -> (r: Self)
        ensures
            r.code_spec() == code,
    {
        InstallFilesystemError { code }
    }

    pub fn code(self) -> (r: InstallFilesystemErrorCode)
        ensures
            r == self.code_spec(),
    {
        self.code
    }
}

/// The start-gate code that reports a store failure.
pub open spec fn startup_code_for_store_error(code: InstallFilesystemErrorCode) -> InstallStartupGateErrorCode {
    match code {
        InstallFilesystemErrorCode::UnsafeDataRoot => InstallStartupGateErrorCode::UnsafeDataRoot,
        InstallFilesystemErrorCode::UnsafeStateDirectory => InstallStartupGateErrorCode::UnsafeStateDirectory,
        InstallFilesystemErrorCode::UnexpectedStateObject => InstallStartupGateErrorCode::UnexpectedStateObject,
        InstallFilesystemErrorCode::InvalidReceipt => InstallStartupGateErrorCode::InvalidReceipt,
        InstallFilesystemErrorCode::InvalidReceiptReplacement => InstallStartupGateErrorCode::InvalidReceipt,
        InstallFilesystemErrorCode::InterruptedReceiptWrite => InstallStartupGateErrorCode::InterruptedReceipt,
        InstallFilesystemErrorCode::OperationAlreadyActive => InstallStartupGateErrorCode::ActiveGuard,
        InstallFilesystemErrorCode::IdentityChanged => InstallStartupGateErrorCode::RootIdentityChanged,
        InstallFilesystemErrorCode::Io => InstallStartupGateErrorCode::Io,
    }
}

pub fn map_startup_error(code: InstallFilesystemErrorCode) -> (r: InstallStartupGateErrorCode)
    ensures
        r == startup_code_for_store_error(code),
{
    match code {
        InstallFilesystemErrorCode::UnsafeDataRoot => InstallStartupGateErrorCode::UnsafeDataRoot,
        InstallFilesystemErrorCode::UnsafeStateDirectory => InstallStartupGateErrorCode::UnsafeStateDirectory,
        InstallFilesystemErrorCode::UnexpectedStateObject => InstallStartupGateErrorCode::UnexpectedStateObject,
        InstallFilesystemErrorCode::InvalidReceipt => InstallStartupGateErrorCode::InvalidReceipt,
        InstallFilesystemErrorCode::InvalidReceiptReplacement => InstallStartupGateErrorCode::InvalidReceipt,
        InstallFilesystemErrorCode::InterruptedReceiptWrite => InstallStartupGateErrorCode::InterruptedReceipt,
        InstallFilesystemErrorCode::OperationAlreadyActive => InstallStartupGateErrorCode::ActiveGuard,
        InstallFilesystemErrorCode::IdentityChanged => InstallStartupGateErrorCode::RootIdentityChanged,
        InstallFilesystemErrorCode::Io => InstallStartupGateErrorCode::Io,
    }
}

/// A loaded receipt belongs to the verified install root.
pub fn validate_receipt_root(receipt: &InstallReceipt, root: &InstallRootIdentity) -> (r: Result<
    (),
    InstallFilesystemError,
>)
    ensures
        r is Ok <==> receipt@.root_identity == *root,
        r matches Err(e) ==> e.code_spec() == InstallFilesystemErrorCode::IdentityChanged,
{
    if *receipt.root_identity() == *root {
        Ok(())
    } else {
        Err(InstallFilesystemError::new(InstallFilesystemErrorCode::IdentityChanged))
    }
}

/// What a read-only inspection of the install data root found, in the order the
/// inspection looks: the root path, the root, the guard socket, the state
/// directory, the store, a staged receipt and the receipt.
pub enum InstallRootFinding {
    DataRootPathUnsafe,
    DataRootAbsent,
    DataRootUnreadable,
    DataRootUnverified,
    GuardPathUnavailable,
    GuardNotPrivate,
    GuardPresent,
    GuardUnreadable,
    StateDirectoryAbsent,
    StateDirectoryUnreadable,
    StateDirectoryUnsafe,
    StoreFailed(InstallFilesystemErrorCode),
    StagedReceiptPresent,
    StagedReceiptUnreadable,
    ReceiptAbsent,
    ReceiptLoaded(InstallReceipt),
}

/// The failure code that a finding other than an allowed state or a loaded receipt
/// reports, if it is a failure.
pub open spec fn finding_failure(f: InstallRootFinding) -> Option<InstallStartupGateErrorCode> {
    match f {
        InstallRootFinding::DataRootPathUnsafe => Some(InstallStartupGateErrorCode::UnsafeDataRoot),
        InstallRootFinding::DataRootUnreadable => Some(InstallStartupGateErrorCode::Io),
        InstallRootFinding::DataRootUnverified => Some(InstallStartupGateErrorCode::UnsafeDataRoot),
        InstallRootFinding::GuardPathUnavailable => Some(InstallStartupGateErrorCode::UnsafeStateDirectory),
        InstallRootFinding::GuardNotPrivate => Some(InstallStartupGateErrorCode::RootIdentityChanged),
        InstallRootFinding::GuardUnreadable => Some(InstallStartupGateErrorCode::Io),
        InstallRootFinding::StateDirectoryUnreadable => Some(InstallStartupGateErrorCode::Io),
        InstallRootFinding::StateDirectoryUnsafe => Some(InstallStartupGateErrorCode::UnsafeStateDirectory),
        InstallRootFinding::StoreFailed(code) => Some(startup_code_for_store_error(code)),
        InstallRootFinding::StagedReceiptPresent => Some(InstallStartupGateErrorCode::InterruptedReceipt),
        InstallRootFinding::StagedReceiptUnreadable => Some(InstallStartupGateErrorCode::Io),
        _ => None,
    }
}

pub open spec fn failed_view(code: InstallStartupGateErrorCode) -> InstallStartupGateResultView {
    InstallStartupGateResultView {
        decision: InstallStartupGateDecision::FailedClosed,
        error_code: code,
        receipt_state: None,
    }
}

pub open spec fn allowed_view(decision: InstallStartupGateDecision) -> InstallStartupGateResultView {
    InstallStartupGateResultView {
        decision,
        error_code: InstallStartupGateErrorCode::NoError,
        receipt_state: None,
    }
}

/// The start decision for what the inspection found.
pub open spec fn startup_decision_for_finding(
    f: InstallRootFinding,
    running: RunningProgramIdentityView,
) -> InstallStartupGateResultView {
    match f {
        InstallRootFinding::DataRootAbsent => allowed_view(InstallStartupGateDecision::AllowedFirstLaunch),
        InstallRootFinding::GuardPresent => InstallStartupGateResultView {
            decision: InstallStartupGateDecision::BlockedInstallInProgress,
            error_code: InstallStartupGateErrorCode::ActiveGuard,
            receipt_state: None,
        },
        InstallRootFinding::StateDirectoryAbsent => allowed_view(InstallStartupGateDecision::AllowedNoInstallState),
        InstallRootFinding::ReceiptAbsent => allowed_view(InstallStartupGateDecision::AllowedNoInstallState),
        InstallRootFinding::ReceiptLoaded(receipt) => startup_decision_for_receipt(receipt@, running),
        _ => failed_view(finding_failure(f)->0),
    }
}

fn failed(error_code: InstallStartupGateErrorCode) -> (r: InstallStartupGateResult)
    ensures
        r@ == failed_view(error_code),
{
    InstallStartupGateResult {
        decision: InstallStartupGateDecision::FailedClosed,
        error_code,
        receipt_state: None,
    }
}

fn allowed(decision: InstallStartupGateDecision) -> (r: InstallStartupGateResult)
    ensures
        r@ == allowed_view(decision),
{
    InstallStartupGateResult { decision, error_code: InstallStartupGateErrorCode::NoError, receipt_state: None }
}

/// Decides a program start from what the inspection of the data root found.
pub fn decide_install_startup_gate(
    finding: &InstallRootFinding,
    running: &RunningProgramIdentity,
) -> (r: InstallStartupGateResult)
    ensures
        r@ == startup_decision_for_finding(*finding, running@),
{
    match finding {
        InstallRootFinding::DataRootPathUnsafe => failed(InstallStartupGateErrorCode::UnsafeDataRoot),
        InstallRootFinding::DataRootAbsent => allowed(InstallStartupGateDecision::AllowedFirstLaunch),
        InstallRootFinding::DataRootUnreadable => failed(InstallStartupGateErrorCode::Io),
        InstallRootFinding::DataRootUnverified => failed(InstallStartupGateErrorCode::UnsafeDataRoot),
        InstallRootFinding::GuardPathUnavailable => failed(InstallStartupGateErrorCode::UnsafeStateDirectory),
        InstallRootFinding::GuardNotPrivate => failed(InstallStartupGateErrorCode::RootIdentityChanged),
        InstallRootFinding::GuardPresent => InstallStartupGateResult {
            decision: InstallStartupGateDecision::BlockedInstallInProgress,
            error_code: InstallStartupGateErrorCode::ActiveGuard,
            receipt_state: None,
        },
        InstallRootFinding::GuardUnreadable => failed(InstallStartupGateErrorCode::Io),
        InstallRootFinding::StateDirectoryAbsent => allowed(InstallStartupGateDecision::AllowedNoInstallState),
        InstallRootFinding::StateDirectoryUnreadable => failed(InstallStartupGateErrorCode::Io),
        InstallRootFinding::StateDirectoryUnsafe => failed(InstallStartupGateErrorCode::UnsafeStateDirectory),
        InstallRootFinding::StoreFailed(code) => failed(map_startup_error(*code)),
        InstallRootFinding::StagedReceiptPresent => failed(InstallStartupGateErrorCode::InterruptedReceipt),
        InstallRootFinding::StagedReceiptUnreadable => failed(InstallStartupGateErrorCode::Io),
        InstallRootFinding::ReceiptAbsent => allowed(InstallStartupGateDecision::AllowedNoInstallState),
        InstallRootFinding::ReceiptLoaded(receipt) => evaluate_install_startup_receipt(receipt, running),
    }
}

/// The status report for what the inspection found: ready when nothing is installed
/// yet, in progress while a guard is held or a receipt is open, the receipt's own
/// fields once it is loaded, and a failure otherwise.
pub open spec fn status_for_finding(f: InstallRootFinding) -> InstallStatusResultView {
    match f {
        InstallRootFinding::DataRootAbsent => InstallStatusResultView {
            decision: InstallStatusDecision::ReadyFirstLaunch,
            error_code: InstallStartupGateErrorCode::NoError,
            operation_kind: None,
            receipt_state: None,
            failure_code: None,
            manual_recovery_required: false,
        },
        InstallRootFinding::StateDirectoryAbsent | InstallRootFinding::ReceiptAbsent =>
            InstallStatusResultView {
            decision: InstallStatusDecision::ReadyNoInstallState,
            error_code: InstallStartupGateErrorCode::NoError,
            operation_kind: None,
            receipt_state: None,
            failure_code: None,
            manual_recovery_required: false,
        },
        InstallRootFinding::GuardPresent => InstallStatusResultView {
            decision: InstallStatusDecision::OperationInProgress,
            error_code: InstallStartupGateErrorCode::ActiveGuard,
            operation_kind: None,
            receipt_state: None,
            failure_code: None,
            manual_recovery_required: false,
        },
        InstallRootFinding::ReceiptLoaded(receipt) => InstallStatusResultView {
            decision: if receipt@.state.terminal() {
                InstallStatusDecision::TerminalReceipt
            } else {
                InstallStatusDecision::OperationInProgress
            },
            error_code: if receipt@.state.terminal() {
                InstallStartupGateErrorCode::NoError
            } else {
                InstallStartupGateErrorCode::InstallInProgress
            },
            operation_kind: Some(receipt@.operation_kind),
            receipt_state: Some(receipt@.state),
            failure_code: receipt@.failure_code,
            manual_recovery_required: receipt@.manual_recovery_required,
        },
        _ => InstallStatusResultView {
            decision: InstallStatusDecision::FailedClosed,
            error_code: finding_failure(f)->0,
            operation_kind: None,
            receipt_state: None,
            failure_code: None,
            manual_recovery_required: false,
        },
    }
}

/// Reports the installation's status from what the inspection found.
pub fn project_install_status(finding: &InstallRootFinding) -> (r: InstallStatusResult)
    ensures
        r@ == status_for_finding(*finding),
{
    let plain = |decision: InstallStatusDecision, error_code: InstallStartupGateErrorCode| -> (s:
        InstallStatusResult)
        ensures
            s@ == (InstallStatusResultView {
                decision,
                error_code,
                operation_kind: None,
                receipt_state: None,
                failure_code: None,
                manual_recovery_required: false,
            }),
        {
            InstallStatusResult {
                decision,
                error_code,
                operation_kind: None,
                receipt_state: None,
                failure_code: None,
                manual_recovery_required: false,
            }
        };
    match finding {
        InstallRootFinding::DataRootAbsent => plain(
            InstallStatusDecision::ReadyFirstLaunch,
            InstallStartupGateErrorCode::NoError,
        ),
        InstallRootFinding::StateDirectoryAbsent | InstallRootFinding::ReceiptAbsent => plain(
            InstallStatusDecision::ReadyNoInstallState,
            InstallStartupGateErrorCode::NoError,
        ),
        InstallRootFinding::GuardPresent => plain(
            InstallStatusDecision::OperationInProgress,
            InstallStartupGateErrorCode::ActiveGuard,
        ),
        InstallRootFinding::ReceiptLoaded(receipt) => {
            let terminal = receipt.state().is_terminal();
            InstallStatusResult {
                decision: if terminal {
                    InstallStatusDecision::TerminalReceipt
                } else {
                    InstallStatusDecision::OperationInProgress
                },
                error_code: if terminal {
                    InstallStartupGateErrorCode::NoError
                } else {
                    InstallStartupGateErrorCode::InstallInProgress
                },
                operation_kind: Some(receipt.operation_kind()),
                receipt_state: Some(receipt.state()),
                failure_code: receipt.failure_code(),
                manual_recovery_required: receipt.manual_recovery_required(),
            }
        },
        _ => {
            let gate = decide_install_startup_gate_failure(finding);
            plain(InstallStatusDecision::FailedClosed, gate)
        },
    }
}

/// The failure code of a finding that reports a failure.
fn decide_install_startup_gate_failure(finding: &InstallRootFinding) -> (r: InstallStartupGateErrorCode)
    requires
        finding_failure(*finding) is Some,
    ensures
        r == finding_failure(*finding)->0,
{
    match finding {
        InstallRootFinding::DataRootPathUnsafe => InstallStartupGateErrorCode::UnsafeDataRoot,
        InstallRootFinding::DataRootUnreadable => InstallStartupGateErrorCode::Io,
        InstallRootFinding::DataRootUnverified => InstallStartupGateErrorCode::UnsafeDataRoot,
        InstallRootFinding::GuardPathUnavailable => InstallStartupGateErrorCode::UnsafeStateDirectory,
        InstallRootFinding::GuardNotPrivate => InstallStartupGateErrorCode::RootIdentityChanged,
        InstallRootFinding::GuardUnreadable => InstallStartupGateErrorCode::Io,
        InstallRootFinding::StateDirectoryUnreadable => InstallStartupGateErrorCode::Io,
        InstallRootFinding::StateDirectoryUnsafe => InstallStartupGateErrorCode::UnsafeStateDirectory,
        InstallRootFinding::StoreFailed(code) => map_startup_error(*code),
        InstallRootFinding::StagedReceiptPresent => InstallStartupGateErrorCode::InterruptedReceipt,
        _ => InstallStartupGateErrorCode::Io,
    }
}

/// Every receipt whose operation is still running blocks every program start, and
/// only a terminal receipt can let a program start.
pub proof fn lemma_open_operation_blocks_start(
    receipt: InstallReceiptView,
    running: RunningProgramIdentityView,
)
    ensures
        !receipt.state.terminal() ==> startup_decision_for_receipt(receipt, running).decision
            == InstallStartupGateDecision::BlockedInstallInProgress,
        startup_allowed(startup_decision_for_receipt(receipt, running).decision)
            ==> (receipt.state.terminal() && (receipt.installed_product() matches Some(p)
            && p.matches_running(running))),
{
}


/// A program may start without a receipt exactly when nothing is installed
/// yet: a missing data root allows the first launch, a missing state directory
/// or receipt allows a start without install state, always with no error and no
/// receipt state; every other finding without a receipt refuses the start.
/// Gate and status agree here: a first launch is allowed exactly when the status
/// is ready for one, a start without install state exactly when the status is
/// ready without install state, and both carry the same error code.
pub proof fn lemma_start_without_receipt_matches_status(f: InstallRootFinding, running: RunningProgramIdentityView)
    requires
        !(f is ReceiptLoaded),
    ensures
        startup_allowed(startup_decision_for_finding(f, running).decision) <==> (f is DataRootAbsent
            || f is StateDirectoryAbsent || f is ReceiptAbsent),
        startup_allowed(startup_decision_for_finding(f, running).decision) ==> startup_decision_for_finding(
            f,
            running,
        ).error_code == InstallStartupGateErrorCode::NoError,
        startup_decision_for_finding(f, running).receipt_state is None,
        (startup_decision_for_finding(f, running).decision == InstallStartupGateDecision::AllowedFirstLaunch)
            <==> (status_for_finding(f).decision == InstallStatusDecision::ReadyFirstLaunch),
        (startup_decision_for_finding(f, running).decision == InstallStartupGateDecision::AllowedNoInstallState)
            <==> (status_for_finding(f).decision == InstallStatusDecision::ReadyNoInstallState),
        startup_decision_for_finding(f, running).error_code == status_for_finding(f).error_code,
{
}

/// With a receipt read, the start gate and the status report agree too: a start
/// is allowed only where the status shows a terminal receipt, and a status that
/// shows an operation in progress always blocks the start; both report the
/// receipt's state.
pub proof fn lemma_start_with_receipt_matches_status(f: InstallRootFinding, running: RunningProgramIdentityView)
    requires
        f is ReceiptLoaded,
    ensures
        startup_allowed(startup_decision_for_finding(f, running).decision) ==> status_for_finding(f).decision
            == InstallStatusDecision::TerminalReceipt,
        status_for_finding(f).decision == InstallStatusDecision::OperationInProgress ==> startup_decision_for_finding(
            f,
            running,
        ).decision == InstallStartupGateDecision::BlockedInstallInProgress,
        startup_decision_for_finding(f, running).receipt_state == status_for_finding(f).receipt_state,
{
}

/// What persisting an install receipt does to the stored one.
#[derive(Debug, Clone, Copy, PartialEq, Eq, Structural)]
pub enum InstallPersistPlan {
    /// The stored receipt already has these exact bytes.
    Unchanged,
    /// The new receipt is written in place of the stored one.
    Write,
}

/// The plan for persisting `next` over the `current` stored receipt, when
/// `same_bytes` tells whether their encodings are identical: the receipt must be
/// bound to the store's root and valid; identical bytes change nothing; a stored
/// receipt may only be replaced by a receipt it accepts as successor, and an empty
/// store only receives a fresh `Prepared` operation without predecessor.
pub open spec fn install_persist_plan(
    root: InstallRootIdentity,
    current: Option<InstallReceiptView>,
    same_bytes: bool,
    next: InstallReceiptView,
) -> Result<InstallPersistPlan, InstallFilesystemErrorCode> {
    if next.root_identity != root {
        Err(InstallFilesystemErrorCode::IdentityChanged)
    } else if !next.wf() {
        Err(InstallFilesystemErrorCode::InvalidReceipt)
    } else {
        match current {
            Some(c) => if same_bytes {
                Ok(InstallPersistPlan::Unchanged)
            } else if InstallReceiptView::can_replace(next, c) {
                Ok(InstallPersistPlan::Write)
            } else {
                Err(InstallFilesystemErrorCode::InvalidReceiptReplacement)
            },
            None => if next.state == InstallState::Prepared && next.previous_operation_id is None {
                Ok(InstallPersistPlan::Write)
            } else {
                Err(InstallFilesystemErrorCode::InvalidReceiptReplacement)
            },
        }
    }
}

pub open spec fn optional_install_view(r: Option<&InstallReceipt>) -> Option<InstallReceiptView> {
    match r {
        Some(receipt) => Some(receipt@),
        None => None,
    }
}

/// Decides what persisting `next` over the stored receipt does.
pub fn plan_install_persist(
    root: &InstallRootIdentity,
    current: Option<&InstallReceipt>,
    same_bytes: bool,
    next: &InstallReceipt,
) -> (r: Result<InstallPersistPlan, InstallFilesystemError>)
    ensures
        match install_persist_plan(*root, optional_install_view(current), same_bytes, next@) {
            Ok(plan) => r == Ok::<InstallPersistPlan, InstallFilesystemError>(plan),
            Err(code) => r matches Err(e) && e.code_spec() == code,
        },
{
    match validate_receipt_root(next, root) {
        Err(e) => return Err(e),
        Ok(()) => {},
    }
    if next.validate().is_err() {
        return Err(InstallFilesystemError::new(InstallFilesystemErrorCode::InvalidReceipt));
    }
    match current {
        Some(c) => {
            if same_bytes {
                Ok(InstallPersistPlan::Unchanged)
            } else if next.can_replace(c) {
                Ok(InstallPersistPlan::Write)
            } else {
                Err(InstallFilesystemError::new(InstallFilesystemErrorCode::InvalidReceiptReplacement))
            }
        },
        None => {
            if next.state() == InstallState::Prepared && next.previous_operation_id().is_none() {
                Ok(InstallPersistPlan::Write)
            } else {
                Err(InstallFilesystemError::new(InstallFilesystemErrorCode::InvalidReceiptReplacement))
            }
        },
    }
}

/// The install store never overwrites a receipt with one it does not accept: a
/// write either starts the first operation in an empty store or replaces the
/// stored receipt by an accepted successor.
pub proof fn lemma_install_store_writes_only_accepted_successors(
    root: InstallRootIdentity,
    current: Option<InstallReceiptView>,
    same_bytes: bool,
    next: InstallReceiptView,
)
    requires
        install_persist_plan(root, current, same_bytes, next) == Ok::<
            InstallPersistPlan,
            InstallFilesystemErrorCode,
        >(InstallPersistPlan::Write),
    ensures
        next.wf(),
        next.root_identity == root,
        match current {
            Some(c) => InstallReceiptView::can_replace(next, c),
            None => next.state == InstallState::Prepared && next.previous_operation_id is None,
        },
{
}

/// Checks that the receipt a caller holds is the stored one.
pub fn verify_current_receipt(stored: Option<&InstallReceipt>, receipt: &InstallReceipt) -> (r: Result<
    (),
    InstallFilesystemError,
>)
    ensures
        match stored {
            None => r matches Err(e) && e.code_spec() == InstallFilesystemErrorCode::InvalidReceipt,
            Some(s) => (r is Ok <==> s@ == receipt@) && (r matches Err(e) ==> e.code_spec()
                == InstallFilesystemErrorCode::InvalidReceiptReplacement),
        },
{
    match stored {
        None => Err(InstallFilesystemError::new(InstallFilesystemErrorCode::InvalidReceipt)),
        Some(s) => {
            if s.same_as(receipt) {
                Ok(())
            } else {
                Err(InstallFilesystemError::new(InstallFilesystemErrorCode::InvalidReceiptReplacement))
            }
        },
    }
}

/// The names the install state directory may hold.
pub open spec fn known_install_entry(name: Seq<char>) -> bool {
    name == "receipt.json"@ || name == "receipt.json.tmp"@
}

/// Refuses a state-directory entry that the install store does not create.
pub fn validate_install_entry(name: &str) -> (r: Result<(), InstallFilesystemError>)
    ensures
        r is Ok <==> known_install_entry(name@),
        r matches Err(e) ==> e.code_spec() == InstallFilesystemErrorCode::UnexpectedStateObject,
{
    if crate::text::same_text(name, "receipt.json") || crate::text::same_text(name, "receipt.json.tmp") {
        Ok(())
    } else {
        Err(InstallFilesystemError::new(InstallFilesystemErrorCode::UnexpectedStateObject))
    }
}


/// The receipt the store holds after persisting `next` under `plan`: the
/// stored one when the plan refuses or finds identical bytes, `next` when it
/// writes.
pub open spec fn stored_after_install_persist(
    current: Option<InstallReceiptView>,
    plan: Result<InstallPersistPlan, InstallFilesystemErrorCode>,
    next: InstallReceiptView,
) -> Option<InstallReceiptView> {
    match plan {
        Ok(InstallPersistPlan::Write) => Some(next),
        _ => current,
    }
}

/// What a persist leaves stored: a refused persist keeps the stored receipt; a
/// write stores `next`, which the stored receipt accepts as its successor (or
/// which starts the first operation); identical bytes are never rewritten; an
/// empty store refuses anything but a fresh `Prepared` receipt; and a stored
/// receipt refuses, and keeps its place against, a receipt it does not accept.
pub proof fn lemma_install_persist_outcome(
    root: InstallRootIdentity,
    current: Option<InstallReceiptView>,
    same_bytes: bool,
    next: InstallReceiptView,
)
    ensures
        ({
            let plan = install_persist_plan(root, current, same_bytes, next);
            let after = stored_after_install_persist(current, plan, next);
            &&& plan is Err ==> after == current
            &&& plan == Ok::<InstallPersistPlan, InstallFilesystemErrorCode>(InstallPersistPlan::Write) ==> after
                == Some(next) && next.wf() && next.root_identity == root && match current {
                Some(c) => InstallReceiptView::can_replace(next, c),
                None => next.state == InstallState::Prepared && next.previous_operation_id is None,
            }
            &&& (same_bytes && current is Some && next.root_identity == root && next.wf()) ==> plan == Ok::<
                InstallPersistPlan,
                InstallFilesystemErrorCode,
            >(InstallPersistPlan::Unchanged) && after == current
            &&& (current is None && next.root_identity == root && next.wf() && (next.state != InstallState::Prepared
                || next.previous_operation_id is Some)) ==> plan == Err::<
                InstallPersistPlan,
                InstallFilesystemErrorCode,
            >(InstallFilesystemErrorCode::InvalidReceiptReplacement) && after == current
            &&& (current matches Some(c) && !same_bytes && next.root_identity == root && next.wf()
                && !InstallReceiptView::can_replace(next, c)) ==> plan == Err::<
                InstallPersistPlan,
                InstallFilesystemErrorCode,
            >(InstallFilesystemErrorCode::InvalidReceiptReplacement) && after == current
        }),
{
}

} // verus!

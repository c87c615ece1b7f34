//! Whether the product may start while its data may be mid-upgrade, and what the
//! upgrade receipt store may persist over the receipt it holds.

use vstd::prelude::*;

use crate::upgrade_receipt::{
    artifact_views, UpgradeArtifactIdentity, UpgradeArtifactIdentityView, UpgradeArtifactSlot,
    UpgradeReceipt, UpgradeReceiptView, UpgradeState,
};
use crate::text::same_text;
use crate::upgrade_store::{UpgradeFilesystemError, UpgradeFilesystemErrorCode};

verus! {

#[derive(Debug, Clone, Copy, PartialEq, Eq, Structural)]
pub enum StartupGateDecision {
    AllowedFirstLaunch,
    AllowedNoUpgradeState,
    AllowedTerminalReceipt,
    BlockedUpgradeInProgress,
    FailedClosed,
}

#[derive(Debug, Clone, Copy, PartialEq, Eq, Structural)]
pub enum StartupGateErrorCode {
    NoError,
    UpgradeInProgress,
    ActiveGuard,
    UnsafeDataRoot,
    UnsafeStateDirectory,
    InterruptedArtifact,
    InvalidReceipt,
    UnexpectedStateObject,
    IdentityChanged,
    Io,
}

/// The start decision, the reason when it is not an allowance, and the state of
/// the receipt it read.
#[derive(Debug, Clone, Copy, PartialEq, Eq, Structural)]
pub struct StartupGateResult {
    pub decision: StartupGateDecision,
    pub error_code: StartupGateErrorCode,
    pub receipt_state: Option<UpgradeState>,
}

pub open spec fn allowed_decision(d: StartupGateDecision) -> bool {
    d is AllowedFirstLaunch || d is AllowedNoUpgradeState || d is AllowedTerminalReceipt
}

impl StartupGateResult {
    pub fn decision(self) -> (r: StartupGateDecision)
        ensures
            r == self.decision,
    {
        self.decision
    }

    pub fn error_code(self) -> (r: StartupGateErrorCode)
        ensures
            r == self.error_code,
    {
        self.error_code
    }

    pub fn receipt_state(self) -> (r: Option<UpgradeState>)
        ensures
            r == self.receipt_state,
    {
        self.receipt_state
    }

    pub fn is_allowed(self) -> (r: bool)
        ensures
            r == allowed_decision(self.decision),
    {
        matches!(
            self.decision,
            StartupGateDecision::AllowedFirstLaunch | StartupGateDecision::AllowedNoUpgradeState
                | StartupGateDecision::AllowedTerminalReceipt
        )
    }
}

/// Which gate code a store failure maps to.
pub open spec fn gate_code_for_store_error(code: UpgradeFilesystemErrorCode) -> StartupGateErrorCode {
    match code {
        UpgradeFilesystemErrorCode::OperationAlreadyActive => StartupGateErrorCode::ActiveGuard,
        UpgradeFilesystemErrorCode::InterruptedReceiptWrite | UpgradeFilesystemErrorCode::InterruptedSnapshot
        | UpgradeFilesystemErrorCode::InterruptedCandidate | UpgradeFilesystemErrorCode::InterruptedSwitch
        | UpgradeFilesystemErrorCode::InterruptedSettingsBackup => StartupGateErrorCode::InterruptedArtifact,
        UpgradeFilesystemErrorCode::InvalidReceipt | UpgradeFilesystemErrorCode::InvalidReceiptReplacement => {
            StartupGateErrorCode::InvalidReceipt
        },
        UpgradeFilesystemErrorCode::UnexpectedStateObject => StartupGateErrorCode::UnexpectedStateObject,
        UpgradeFilesystemErrorCode::UnsafeDataRoot => StartupGateErrorCode::UnsafeDataRoot,
        UpgradeFilesystemErrorCode::UnsafeStateDirectory => StartupGateErrorCode::UnsafeStateDirectory,
        UpgradeFilesystemErrorCode::IdentityChanged => StartupGateErrorCode::IdentityChanged,
        _ => StartupGateErrorCode::Io,
    }
}

pub fn map_filesystem_error(code: UpgradeFilesystemErrorCode) -> (r: StartupGateErrorCode)
    ensures
        r == gate_code_for_store_error(code),
{
    match code {
        UpgradeFilesystemErrorCode::OperationAlreadyActive => StartupGateErrorCode::ActiveGuard,
        UpgradeFilesystemErrorCode::InterruptedReceiptWrite | UpgradeFilesystemErrorCode::InterruptedSnapshot
        | UpgradeFilesystemErrorCode::InterruptedCandidate | UpgradeFilesystemErrorCode::InterruptedSwitch
        | UpgradeFilesystemErrorCode::InterruptedSettingsBackup => StartupGateErrorCode::InterruptedArtifact,
        UpgradeFilesystemErrorCode::InvalidReceipt | UpgradeFilesystemErrorCode::InvalidReceiptReplacement => {
            StartupGateErrorCode::InvalidReceipt
        },
        UpgradeFilesystemErrorCode::UnexpectedStateObject => StartupGateErrorCode::UnexpectedStateObject,
        UpgradeFilesystemErrorCode::UnsafeDataRoot => StartupGateErrorCode::UnsafeDataRoot,
        UpgradeFilesystemErrorCode::UnsafeStateDirectory => StartupGateErrorCode::UnsafeStateDirectory,
        UpgradeFilesystemErrorCode::IdentityChanged => StartupGateErrorCode::IdentityChanged,
        _ => StartupGateErrorCode::Io,
    }
}

/// What a read-only inspection of the product data root found, in the order the
/// inspection looks: the root path, the root, the guard socket, the state
/// directory and the receipt store.
pub enum UpgradeRootFinding {
    DataRootPathUnsafe,
    DataRootAbsent,
    DataRootUnreadable,
    DataRootUnverified,
    GuardPathUnavailable,
    GuardPresent,
    GuardUnreadable,
    StateDirectoryAbsent,
    StateDirectoryUnreadable,
    StateDirectoryUnsafe,
    StoreFailed(UpgradeFilesystemErrorCode),
    ReceiptAbsent,
    ReceiptLoaded(UpgradeState),
}

pub open spec fn failed_result(code: StartupGateErrorCode) -> StartupGateResult {
    StartupGateResult { decision: StartupGateDecision::FailedClosed, error_code: code, receipt_state: None }
}

pub open spec fn allowed_result(decision: StartupGateDecision, state: Option<UpgradeState>) -> StartupGateResult {
    StartupGateResult { decision, error_code: StartupGateErrorCode::NoError, receipt_state: state }
}

/// The start decision for what the inspection found: allowed when there is no data
/// yet, no upgrade state, or a terminal receipt; blocked while a receipt is open;
/// failed closed on anything unsafe, interrupted or unreadable.
pub open spec fn startup_decision(f: UpgradeRootFinding) -> StartupGateResult {
    match f {
        UpgradeRootFinding::DataRootPathUnsafe => failed_result(StartupGateErrorCode::UnsafeDataRoot),
        UpgradeRootFinding::DataRootAbsent => allowed_result(StartupGateDecision::AllowedFirstLaunch, None),
        UpgradeRootFinding::DataRootUnreadable => failed_result(StartupGateErrorCode::Io),
        UpgradeRootFinding::DataRootUnverified => failed_result(StartupGateErrorCode::UnsafeDataRoot),
        UpgradeRootFinding::GuardPathUnavailable => failed_result(StartupGateErrorCode::UnsafeStateDirectory),
        UpgradeRootFinding::GuardPresent => failed_result(StartupGateErrorCode::ActiveGuard),
        UpgradeRootFinding::GuardUnreadable => failed_result(StartupGateErrorCode::Io),
        UpgradeRootFinding::StateDirectoryAbsent => allowed_result(StartupGateDecision::AllowedNoUpgradeState, None),
        UpgradeRootFinding::StateDirectoryUnreadable => failed_result(StartupGateErrorCode::Io),
        UpgradeRootFinding::StateDirectoryUnsafe => failed_result(StartupGateErrorCode::UnsafeStateDirectory),
        UpgradeRootFinding::StoreFailed(code) => failed_result(gate_code_for_store_error(code)),
        UpgradeRootFinding::ReceiptAbsent => allowed_result(StartupGateDecision::AllowedNoUpgradeState, None),
        UpgradeRootFinding::ReceiptLoaded(state) => if state.terminal() {
            allowed_result(StartupGateDecision::AllowedTerminalReceipt, Some(state))
        } else {
            StartupGateResult {
                decision: StartupGateDecision::BlockedUpgradeInProgress,
                error_code: StartupGateErrorCode::UpgradeInProgress,
                receipt_state: Some(state),
            }
        },
    }
}

fn failed(code: StartupGateErrorCode) -> (r: StartupGateResult)
    ensures
        r == failed_result(code),
{
    StartupGateResult { decision: StartupGateDecision::FailedClosed, error_code: code, receipt_state: None }
}

fn allowed(decision: StartupGateDecision, state: Option<UpgradeState>) -> (r: StartupGateResult)
    ensures
        r == allowed_result(decision, state),
{
    StartupGateResult { decision, error_code: StartupGateErrorCode::NoError, receipt_state: state }
}

/// Decides whether the product may start from what the inspection found.
pub fn decide_startup_gate(finding: &UpgradeRootFinding) -> (r: StartupGateResult)
    ensures
        r == startup_decision(*finding),
{
    match finding {
        UpgradeRootFinding::DataRootPathUnsafe => failed(StartupGateErrorCode::UnsafeDataRoot),
        UpgradeRootFinding::DataRootAbsent => allowed(StartupGateDecision::AllowedFirstLaunch, None),
        UpgradeRootFinding::DataRootUnreadable => failed(StartupGateErrorCode::Io),
        UpgradeRootFinding::DataRootUnverified => failed(StartupGateErrorCode::UnsafeDataRoot),
        UpgradeRootFinding::GuardPathUnavailable => failed(StartupGateErrorCode::UnsafeStateDirectory),
        UpgradeRootFinding::GuardPresent => failed(StartupGateErrorCode::ActiveGuard),
        UpgradeRootFinding::GuardUnreadable => failed(StartupGateErrorCode::Io),
        UpgradeRootFinding::StateDirectoryAbsent => allowed(StartupGateDecision::AllowedNoUpgradeState, None),
        UpgradeRootFinding::StateDirectoryUnreadable => failed(StartupGateErrorCode::Io),
        UpgradeRootFinding::StateDirectoryUnsafe => failed(StartupGateErrorCode::UnsafeStateDirectory),
        UpgradeRootFinding::StoreFailed(code) => failed(map_filesystem_error(*code)),
        UpgradeRootFinding::ReceiptAbsent => allowed(StartupGateDecision::AllowedNoUpgradeState, None),
        UpgradeRootFinding::ReceiptLoaded(state) => {
            if state.is_terminal() {
                allowed(StartupGateDecision::AllowedTerminalReceipt, Some(*state))
            } else {
                StartupGateResult {
                    decision: StartupGateDecision::BlockedUpgradeInProgress,
                    error_code: StartupGateErrorCode::UpgradeInProgress,
                    receipt_state: Some(*state),
                }
            }
        },
    }
}

/// The product starts exactly where no upgrade can be half done: before any data
/// exists, without upgrade state, or after a terminal receipt; everything else is
/// refused. An allowance never carries an error code, and every refusal does.
pub proof fn lemma_start_only_without_open_upgrade(f: UpgradeRootFinding)
    ensures
        allowed_decision(startup_decision(f).decision) <==> match f {
            UpgradeRootFinding::DataRootAbsent | UpgradeRootFinding::StateDirectoryAbsent
            | UpgradeRootFinding::ReceiptAbsent => true,
            UpgradeRootFinding::ReceiptLoaded(state) => state.terminal(),
            _ => false,
        },
        allowed_decision(startup_decision(f).decision) <==> startup_decision(f).error_code
            == StartupGateErrorCode::NoError,
        (f matches UpgradeRootFinding::ReceiptLoaded(state) && !state.terminal()) ==> startup_decision(f).decision
            == StartupGateDecision::BlockedUpgradeInProgress,
{
}

/// What an allowed start reports: a first launch when the data root is missing,
/// no upgrade state when the state directory or the receipt is missing, and the
/// receipt's own state, which is terminal, when a receipt was read; only a read
/// receipt's state is ever reported.
pub proof fn lemma_allowed_start_reports_what_was_found(f: UpgradeRootFinding)
    ensures
        f is DataRootAbsent ==> startup_decision(f).decision == StartupGateDecision::AllowedFirstLaunch,
        (f is StateDirectoryAbsent || f is ReceiptAbsent) ==> startup_decision(f).decision
            == StartupGateDecision::AllowedNoUpgradeState,
        (f matches UpgradeRootFinding::ReceiptLoaded(state) && state.terminal()) ==> startup_decision(f).decision
            == StartupGateDecision::AllowedTerminalReceipt,
        match f {
            UpgradeRootFinding::ReceiptLoaded(state) => startup_decision(f).receipt_state == Some(state),
            _ => startup_decision(f).receipt_state is None,
        },
{
}

/// Two data-root identities name the same directory.
pub open spec fn same_root_directory(left: UpgradeArtifactIdentityView, right: UpgradeArtifactIdentityView) -> bool {
    left.slot == UpgradeArtifactSlot::DataRoot && right.slot == UpgradeArtifactSlot::DataRoot && left.device_id
        == right.device_id && left.inode == right.inode && left.owner_id == right.owner_id && left.mode
        == right.mode
}

pub fn directory_artifacts_match(left: &UpgradeArtifactIdentity, right: &UpgradeArtifactIdentity) -> (r: bool)
    ensures
        r == same_root_directory(left@, right@),
{
    left.slot() == UpgradeArtifactSlot::DataRoot && right.slot() == UpgradeArtifactSlot::DataRoot
        && left.device_id() == right.device_id() && left.inode() == right.inode() && left.owner_id()
        == right.owner_id() && left.mode() == right.mode()
}

/// The receipt names `root` as its data root.
pub open spec fn receipt_names_root(v: UpgradeReceiptView, root: UpgradeArtifactIdentityView) -> bool {
    exists|i: int| 0 <= i < v.artifacts.len() && same_root_directory(#[trigger] v.artifacts[i], root)
}

/// Refuses a receipt that belongs to another data root.
pub fn validate_receipt_root(receipt: &UpgradeReceipt, root_identity: &UpgradeArtifactIdentity) -> (r: Result<
    (),
    UpgradeFilesystemError,
>)
    ensures
        r is Ok <==> receipt_names_root(receipt@, root_identity@),
        r matches Err(e) ==> e.code_spec() == UpgradeFilesystemErrorCode::IdentityChanged,
{
    let artifacts = receipt.artifacts();
    let ghost s = receipt@.artifacts;
    let mut i: usize = 0;
    while i < artifacts.len()
        invariant
            i <= artifacts@.len(),
            s == artifact_views(artifacts@),
            s == receipt@.artifacts,
            forall|k: int| 0 <= k < i ==> !same_root_directory(#[trigger] s[k], root_identity@),
        decreases artifacts@.len() - i,
    {
        if directory_artifacts_match(&artifacts[i], root_identity) {
            assert(same_root_directory(s[i as int], root_identity@));
            return Ok(());
        }
        i = i + 1;
    }
    Err(UpgradeFilesystemError::new(UpgradeFilesystemErrorCode::IdentityChanged))
}

/// What persisting a receipt does to the stored one.
#[derive(Debug, Clone, Copy, PartialEq, Eq, Structural)]
pub enum ReceiptPersistPlan {
    /// The stored receipt already has these exact bytes.
    Unchanged,
    /// The new receipt is written in place of the stored one.
    Write,
}

/// The plan for persisting `next` over the `current` stored receipt, when
/// `same_bytes` tells whether their encodings are identical: the receipt must name
/// the store's data root and be valid; identical bytes change nothing; otherwise
/// a stored receipt may only be replaced by a successor it accepts, and an empty
/// store only receives a fresh `Preflighted` receipt.
pub open spec fn persist_plan(
    root: UpgradeArtifactIdentityView,
    current: Option<UpgradeReceiptView>,
    same_bytes: bool,
    next: UpgradeReceiptView,
) -> Result<ReceiptPersistPlan, UpgradeFilesystemErrorCode> {
    if !receipt_names_root(next, root) {
        Err(UpgradeFilesystemErrorCode::IdentityChanged)
    } else if !next.wf() {
        Err(UpgradeFilesystemErrorCode::InvalidReceipt)
    } else {
        match current {
            Some(c) => if same_bytes {
                Ok(ReceiptPersistPlan::Unchanged)
            } else if UpgradeReceiptView::can_replace(next, c) {
                Ok(ReceiptPersistPlan::Write)
            } else {
                Err(UpgradeFilesystemErrorCode::InvalidReceiptReplacement)
            },
            None => if next.state == UpgradeState::Preflighted {
                Ok(ReceiptPersistPlan::Write)
            } else {
                Err(UpgradeFilesystemErrorCode::InvalidReceiptReplacement)
            },
        }
    }
}

pub open spec fn optional_receipt_view(r: Option<&UpgradeReceipt>) -> Option<UpgradeReceiptView> {
    match r {
        Some(receipt) => Some(receipt@),
        None => None,
    }
}

/// Decides what persisting `next` over the stored receipt does.
pub fn plan_receipt_persist(
    root_identity: &UpgradeArtifactIdentity,
    current: Option<&UpgradeReceipt>,
    same_bytes: bool,
    next: &UpgradeReceipt,
) -> (r: Result<ReceiptPersistPlan, UpgradeFilesystemError>)
    ensures
        match persist_plan(root_identity@, optional_receipt_view(current), same_bytes, next@) {
            Ok(plan) => r == Ok::<ReceiptPersistPlan, UpgradeFilesystemError>(plan),
            Err(code) => r matches Err(e) && e.code_spec() == code,
        },
{
    match validate_receipt_root(next, root_identity) {
        Err(e) => return Err(e),
        Ok(()) => {},
    }
    if next.validate().is_err() {
        return Err(UpgradeFilesystemError::new(UpgradeFilesystemErrorCode::InvalidReceipt));
    }
    match current {
        Some(c) => {
            if same_bytes {
                Ok(ReceiptPersistPlan::Unchanged)
            } else if next.can_replace(c) {
                Ok(ReceiptPersistPlan::Write)
            } else {
                Err(UpgradeFilesystemError::new(UpgradeFilesystemErrorCode::InvalidReceiptReplacement))
            }
        },
        None => {
            if next.state() == UpgradeState::Preflighted {
                Ok(ReceiptPersistPlan::Write)
            } else {
                Err(UpgradeFilesystemError::new(UpgradeFilesystemErrorCode::InvalidReceiptReplacement))
            }
        },
    }
}

/// The store only ever writes a receipt that is valid, names its root, and either
/// starts an operation in an empty store or is accepted as the stored receipt's
/// successor; in particular, a terminal stored receipt is never overwritten.
pub proof fn lemma_store_writes_only_accepted_successors(
    root: UpgradeArtifactIdentityView,
    current: Option<UpgradeReceiptView>,
    same_bytes: bool,
    next: UpgradeReceiptView,
)
    requires
        persist_plan(root, current, same_bytes, next) == Ok::<ReceiptPersistPlan, UpgradeFilesystemErrorCode>(
            ReceiptPersistPlan::Write,
        ),
    ensures
        next.wf(),
        receipt_names_root(next, root),
        match current {
            Some(c) => UpgradeReceiptView::can_replace(next, c) && !c.state.terminal(),
            None => next.state == UpgradeState::Preflighted,
        },
{
    if let Some(c) = current {
        if c.state.terminal() {
            crate::upgrade_receipt::lemma_upgrade_terminal_receipt_is_closed(next, c);
        }
    }
}

/// The names the upgrade state directory may hold.
pub open spec fn known_state_entry(name: Seq<char>) -> bool {
    ||| name == "receipt.json"@
    ||| name == "receipt.json.tmp"@
    ||| name == "source-snapshot.sqlite3"@
    ||| name == "source-snapshot.sqlite3.tmp"@
    ||| name == "migration-candidate.sqlite3"@
    ||| name == "migration-candidate.sqlite3.tmp"@
    ||| name == "source-backup.sqlite3"@
    ||| name == "source-settings.json"@
    ||| name == "source-settings.json.tmp"@
}

/// Refuses a state-directory entry that the store does not create.
pub fn validate_state_entry(name: &str) -> (r: Result<(), UpgradeFilesystemError>)
    ensures
        r is Ok <==> known_state_entry(name@),
        r matches Err(e) ==> e.code_spec() == UpgradeFilesystemErrorCode::UnexpectedStateObject,
{
    if same_text(name, "receipt.json") || same_text(name, "receipt.json.tmp") || same_text(
        name,
        "source-snapshot.sqlite3",
    ) || same_text(name, "source-snapshot.sqlite3.tmp") || same_text(name, "migration-candidate.sqlite3")
        || same_text(name, "migration-candidate.sqlite3.tmp") || same_text(name, "source-backup.sqlite3")
        || same_text(name, "source-settings.json") || same_text(name, "source-settings.json.tmp") {
        Ok(())
    } else {
        Err(UpgradeFilesystemError::new(UpgradeFilesystemErrorCode::UnexpectedStateObject))
    }
}


/// The receipt the store holds after persisting `next` under `plan`: the
/// stored one when the plan refuses or finds identical bytes, `next` when it
/// writes.
pub open spec fn stored_after_persist(
    current: Option<UpgradeReceiptView>,
    plan: Result<ReceiptPersistPlan, UpgradeFilesystemErrorCode>,
    next: UpgradeReceiptView,
) -> Option<UpgradeReceiptView> {
    match plan {
        Ok(ReceiptPersistPlan::Write) => Some(next),
        _ => current,
    }
}

/// What a persist leaves stored: a refused persist keeps the stored receipt; a
/// write stores `next`, which the stored receipt accepts as its successor (or
/// which is a fresh `Preflighted` receipt in an empty store); identical bytes
/// are never rewritten; and a stored receipt refuses, and keeps its place
/// against, a receipt it does not accept, such as one that skips a state.
pub proof fn lemma_persist_outcome(
    root: UpgradeArtifactIdentityView,
    current: Option<UpgradeReceiptView>,
    same_bytes: bool,
    next: UpgradeReceiptView,
)
    ensures
        ({
            let plan = persist_plan(root, current, same_bytes, next);
            let after = stored_after_persist(current, plan, next);
            &&& plan is Err ==> after == current
            &&& plan == Ok::<ReceiptPersistPlan, UpgradeFilesystemErrorCode>(ReceiptPersistPlan::Write) ==> after
                == Some(next) && next.wf() && receipt_names_root(next, root) && match current {
                Some(c) => UpgradeReceiptView::can_replace(next, c),
                None => next.state == UpgradeState::Preflighted,
            }
            &&& (same_bytes && current is Some && receipt_names_root(next, root) && next.wf()) ==> plan == Ok::<
                ReceiptPersistPlan,
                UpgradeFilesystemErrorCode,
            >(ReceiptPersistPlan::Unchanged) && after == current
            &&& (current is None && receipt_names_root(next, root) && next.wf() && next.state
                != UpgradeState::Preflighted) ==> plan == Err::<ReceiptPersistPlan, UpgradeFilesystemErrorCode>(
                UpgradeFilesystemErrorCode::InvalidReceiptReplacement,
            ) && after == current
            &&& (current matches Some(c) && !same_bytes && receipt_names_root(next, root) && next.wf()
                && !UpgradeReceiptView::can_replace(next, c)) ==> plan == Err::<
                ReceiptPersistPlan,
                UpgradeFilesystemErrorCode,
            >(UpgradeFilesystemErrorCode::InvalidReceiptReplacement) && after == current
        }),
{
}

} // verus!

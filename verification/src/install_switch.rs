//! Switching program bundles: the evidence each rename needs and leaves, which
//! rename comes next for what is found on disk, and the receipt steps that record
//! it. The renames themselves, and looking at the bundles, happen outside.

use vstd::prelude::*;

use crate::install_artifact::{
    InstallArtifactEvidence, InstallArtifactEvidenceView, InstallArtifactSlot, ProgramFilesystemIdentity,
};
use crate::install_product::{InstallOperationKind, InstallState, ProgramComponent};
use crate::install_receipt::{
    insert_by_slot, lemma_wf_sorted, slots_strictly_sorted, InstallReceipt, InstallReceiptView,
};

verus! {

#[derive(Debug, Clone, Copy, PartialEq, Eq, Structural)]
pub enum ProgramSwitchErrorCode {
    UnsafeTargetParent,
    UnsafeTransactionDirectory,
    UnexpectedTransactionObject,
    ArtifactMissing,
    ArtifactIdentityChanged,
    CrossDevice,
    InvalidOperationState,
    Receipt,
    FaultInjected,
    Io,
}

impl ProgramSwitchErrorCode {
    pub open spec fn message_spec(self) -> &'static str {
        match self {
            ProgramSwitchErrorCode::UnsafeTargetParent => "program target parent is unsafe",
            ProgramSwitchErrorCode::UnsafeTransactionDirectory => "program transaction directory is unsafe",
            ProgramSwitchErrorCode::UnexpectedTransactionObject => "program transaction directory contains an unexpected object",
            ProgramSwitchErrorCode::ArtifactMissing => "program artifact is missing",
            ProgramSwitchErrorCode::ArtifactIdentityChanged => "program artifact filesystem identity changed",
            ProgramSwitchErrorCode::CrossDevice => "program artifact is not on the target filesystem",
            ProgramSwitchErrorCode::InvalidOperationState => "program switch is not valid in the current operation state",
            ProgramSwitchErrorCode::Receipt => "program switch receipt update failed",
            ProgramSwitchErrorCode::FaultInjected => "program switch fault was injected",
            ProgramSwitchErrorCode::Io => "program switch filesystem operation failed",
        }
    }

    pub fn message(self) -> (r: &'static str)
        ensures
            r == self.message_spec(),
    {
        match self {
            ProgramSwitchErrorCode::UnsafeTargetParent => "program target parent is unsafe",
            ProgramSwitchErrorCode::UnsafeTransactionDirectory => "program transaction directory is unsafe",
            ProgramSwitchErrorCode::UnexpectedTransactionObject => "program transaction directory contains an unexpected object",
            ProgramSwitchErrorCode::ArtifactMissing => "program artifact is missing",
            ProgramSwitchErrorCode::ArtifactIdentityChanged => "program artifact filesystem identity changed",
            ProgramSwitchErrorCode::CrossDevice => "program artifact is not on the target filesystem",
            ProgramSwitchErrorCode::InvalidOperationState => "program switch is not valid in the current operation state",
            ProgramSwitchErrorCode::Receipt => "program switch receipt update failed",
            ProgramSwitchErrorCode::FaultInjected => "program switch fault was injected",
            ProgramSwitchErrorCode::Io => "program switch filesystem operation failed",
        }
    }
}

/// A failure of a program switch step, by code.
#[derive(Debug, Clone, Copy, PartialEq, Eq, Structural)]
pub struct ProgramSwitchError {
    pub code: ProgramSwitchErrorCode,
}

impl ProgramSwitchError {
    pub fn new(code: ProgramSwitchErrorCode) -> (r: Self)
        ensures
            r.code == code,
    {
        ProgramSwitchError { code }
    }

    pub fn code(self) -> (r: ProgramSwitchErrorCode)
        ensures
            r == self.code,
    {
        self.code
    }
}

pub open spec fn switch_error(code: ProgramSwitchErrorCode) -> ProgramSwitchError {
    ProgramSwitchError { code }
}

/// The four renames of a program switch.
#[derive(Debug, Clone, Copy, PartialEq, Eq, Structural)]
pub enum ProgramSwitchAction {
    PreserveSource,
    CommitTarget,
    ReturnTargetToStage,
    RestoreSource,
}

/// The durability boundaries around one rename.
#[derive(Debug, Clone, Copy, PartialEq, Eq, Structural)]
pub enum ProgramSwitchBoundary {
    BeforeRename,
    AfterRename,
    AfterTargetDirectorySync,
    AfterSourceDirectorySync,
}

/// A boundary of one rename, where a fault can be injected.
#[derive(Debug, Clone, Copy, PartialEq, Eq, Structural)]
pub struct ProgramSwitchFaultPoint {
    action: ProgramSwitchAction,
    boundary: ProgramSwitchBoundary,
}

impl ProgramSwitchFaultPoint {
    pub closed spec fn action_spec(self) -> ProgramSwitchAction {
        self.action
    }

    pub closed spec fn boundary_spec(self) -> ProgramSwitchBoundary {
        self.boundary
    }

    pub fn new(action: ProgramSwitchAction, boundary: ProgramSwitchBoundary) -> (r: Self)
        ensures
            r.action_spec() == action,
            r.boundary_spec() == boundary,
    {
        ProgramSwitchFaultPoint { action, boundary }
    }

    pub fn action(self) -> (r: ProgramSwitchAction)
        ensures
            r == self.action_spec(),
    {
        self.action
    }

    pub fn boundary(self) -> (r: ProgramSwitchBoundary)
        ensures
            r == self.boundary_spec(),
    {
        self.boundary
    }
}

/// Decides, for tests of recovery, whether a rename fails at a boundary.
pub trait ProgramSwitchFaultInjector {
    fn should_fail(&mut self, point: ProgramSwitchFaultPoint) -> bool;
}

/// The injector of a real switch: nothing fails on purpose.
#[derive(Debug, Default)]
pub struct NoProgramSwitchFaults;

impl ProgramSwitchFaultInjector for NoProgramSwitchFaults {
    fn should_fail(&mut self, point: ProgramSwitchFaultPoint) -> (r: bool) {
        false
    }
}

/// The outcome of a boundary once the injector answered: a requested fault
/// stops the step, and otherwise the step goes on.
pub fn fault_outcome(injected: bool) -> (r: Result<(), ProgramSwitchError>)
    ensures
        injected ==> r == Err::<(), ProgramSwitchError>(switch_error(ProgramSwitchErrorCode::FaultInjected)),
        !injected ==> r is Ok,
{
    if injected {
        Err(ProgramSwitchError::new(ProgramSwitchErrorCode::FaultInjected))
    } else {
        Ok(())
    }
}

/// Asks the injector about one boundary; a requested fault stops the step.
pub fn check_fault<F: ProgramSwitchFaultInjector>(
    faults: &mut F,
    action: ProgramSwitchAction,
    boundary: ProgramSwitchBoundary,
) -> (r: Result<(), ProgramSwitchError>)
    ensures
        r is Ok || r == Err::<(), ProgramSwitchError>(switch_error(ProgramSwitchErrorCode::FaultInjected)),
{
    let injected = faults.should_fail(ProgramSwitchFaultPoint::new(action, boundary));
    fault_outcome(injected)
}

/// The bundle name of each program in its parent directory.
pub const MANAGER_BUNDLE_NAME: &'static str = "RadishLex Manager.app";

pub const INPUT_METHOD_BUNDLE_NAME: &'static str = "RadishLexInputMethod.app";

pub fn bundle_name(component: ProgramComponent) -> (r: &'static str)
    ensures
        r@ == (match component {
            ProgramComponent::Manager => MANAGER_BUNDLE_NAME@,
            ProgramComponent::InputMethod => INPUT_METHOD_BUNDLE_NAME@,
        }),
{
    match component {
        ProgramComponent::Manager => MANAGER_BUNDLE_NAME,
        ProgramComponent::InputMethod => INPUT_METHOD_BUNDLE_NAME,
    }
}

pub open spec fn source_slot_spec(c: ProgramComponent) -> InstallArtifactSlot {
    match c {
        ProgramComponent::Manager => InstallArtifactSlot::SourceManager,
        ProgramComponent::InputMethod => InstallArtifactSlot::SourceInputMethod,
    }
}

pub open spec fn staged_slot_spec(c: ProgramComponent) -> InstallArtifactSlot {
    match c {
        ProgramComponent::Manager => InstallArtifactSlot::StagedManager,
        ProgramComponent::InputMethod => InstallArtifactSlot::StagedInputMethod,
    }
}

pub open spec fn backup_slot_spec(c: ProgramComponent) -> InstallArtifactSlot {
    match c {
        ProgramComponent::Manager => InstallArtifactSlot::BackupManager,
        ProgramComponent::InputMethod => InstallArtifactSlot::BackupInputMethod,
    }
}

pub open spec fn installed_slot_spec(c: ProgramComponent) -> InstallArtifactSlot {
    match c {
        ProgramComponent::Manager => InstallArtifactSlot::InstalledManager,
        ProgramComponent::InputMethod => InstallArtifactSlot::InstalledInputMethod,
    }
}

pub fn source_slot(c: ProgramComponent) -> (r: InstallArtifactSlot)
    ensures
        r == source_slot_spec(c),
{
    match c {
        ProgramComponent::Manager => InstallArtifactSlot::SourceManager,
        ProgramComponent::InputMethod => InstallArtifactSlot::SourceInputMethod,
    }
}

pub fn staged_slot(c: ProgramComponent) -> (r: InstallArtifactSlot)
    ensures
        r == staged_slot_spec(c),
{
    match c {
        ProgramComponent::Manager => InstallArtifactSlot::StagedManager,
        ProgramComponent::InputMethod => InstallArtifactSlot::StagedInputMethod,
    }
}

pub fn backup_slot(c: ProgramComponent) -> (r: InstallArtifactSlot)
    ensures
        r == backup_slot_spec(c),
{
    match c {
        ProgramComponent::Manager => InstallArtifactSlot::BackupManager,
        ProgramComponent::InputMethod => InstallArtifactSlot::BackupInputMethod,
    }
}

pub fn installed_slot(c: ProgramComponent) -> (r: InstallArtifactSlot)
    ensures
        r == installed_slot_spec(c),
{
    match c {
        ProgramComponent::Manager => InstallArtifactSlot::InstalledManager,
        ProgramComponent::InputMethod => InstallArtifactSlot::InstalledInputMethod,
    }
}

/// The state in which a program's target may be committed, and the state its
/// commit leads to: the Manager first, then the input method.
pub open spec fn commit_states_spec(c: ProgramComponent) -> (InstallState, InstallState) {
    match c {
        ProgramComponent::Manager => (InstallState::SourcePreserved, InstallState::ManagerCommitted),
        ProgramComponent::InputMethod => (InstallState::ManagerCommitted, InstallState::ProgramsCommitted),
    }
}

pub fn commit_states(c: ProgramComponent) -> (r: (InstallState, InstallState))
    ensures
        r == commit_states_spec(c),
{
    match c {
        ProgramComponent::Manager => (InstallState::SourcePreserved, InstallState::ManagerCommitted),
        ProgramComponent::InputMethod => (InstallState::ManagerCommitted, InstallState::ProgramsCommitted),
    }
}

/// What a look at one bundle path found.
#[derive(Debug, Clone, Copy, PartialEq, Eq, Structural)]
pub enum BundleProbe {
    Absent,
    Present(ProgramFilesystemIdentity),
    /// The path could not be inspected, or held something other than a private bundle.
    Failed(ProgramSwitchErrorCode),
}

/// The filesystem facts of a directory entry that may be a program bundle.
#[derive(Debug, Clone, Copy, PartialEq, Eq, Structural)]
pub struct BundleFacts {
    pub is_directory: bool,
    pub device_id: u64,
    pub inode: u64,
    pub owner_id: u32,
    pub mode: u32,
}

pub open spec fn bundle_permissions(mode: u32) -> u32 {
    mode & 0o7777u32
}

/// The identity of a bundle found on disk: a directory of the expected owner with
/// mode `0700` or `0755` and a positive inode, on the target's filesystem.
pub open spec fn bundle_probe_spec(f: BundleFacts, owner_id: u32, device_id: u64) -> Result<
    (u64, u64, u32, u32),
    ProgramSwitchErrorCode,
> {
    if !f.is_directory || f.owner_id != owner_id || !(bundle_permissions(f.mode) == 0o700u32
        || bundle_permissions(f.mode) == 0o755u32) || f.inode == 0 {
        Err(ProgramSwitchErrorCode::ArtifactIdentityChanged)
    } else if f.device_id != device_id {
        Err(ProgramSwitchErrorCode::CrossDevice)
    } else {
        Ok((f.device_id, f.inode, f.owner_id, bundle_permissions(f.mode)))
    }
}

/// Turns what was found at a bundle path into a probe.
pub fn probe_bundle(found: Option<BundleFacts>, owner_id: u32, device_id: u64) -> (r: BundleProbe)
    ensures
        match found {
            None => r == BundleProbe::Absent,
            Some(f) => match bundle_probe_spec(f, owner_id, device_id) {
                Ok((d, i, o, m)) => r matches BundleProbe::Present(id) && id.device_id_spec() == d
                    && id.inode_spec() == i && id.owner_id_spec() == o && id.mode_spec() == m,
                Err(code) => r == BundleProbe::Failed(code),
            },
        },
{
    match found {
        None => BundleProbe::Absent,
        Some(f) => {
            let mode = f.mode & 0o7777u32;
            if !f.is_directory || f.owner_id != owner_id || !(mode == 0o700u32 || mode == 0o755u32)
                || f.inode == 0 {
                return BundleProbe::Failed(ProgramSwitchErrorCode::ArtifactIdentityChanged);
            }
            if f.device_id != device_id {
                return BundleProbe::Failed(ProgramSwitchErrorCode::CrossDevice);
            }
            match ProgramFilesystemIdentity::new(f.device_id, f.inode, f.owner_id, mode) {
                Ok(id) => BundleProbe::Present(id),
                Err(_) => BundleProbe::Failed(ProgramSwitchErrorCode::ArtifactIdentityChanged),
            }
        },
    }
}

/// A path that must hold a bundle: its identity, or the failure.
pub open spec fn required_spec(p: BundleProbe) -> Result<ProgramFilesystemIdentity, ProgramSwitchErrorCode> {
    match p {
        BundleProbe::Absent => Err(ProgramSwitchErrorCode::ArtifactMissing),
        BundleProbe::Present(id) => Ok(id),
        BundleProbe::Failed(code) => Err(code),
    }
}

/// A path that must hold the bundle with `expected` identity.
pub open spec fn identity_at_spec(p: BundleProbe, expected: ProgramFilesystemIdentity) -> Result<
    (),
    ProgramSwitchErrorCode,
> {
    match required_spec(p) {
        Ok(id) => if id == expected {
            Ok(())
        } else {
            Err(ProgramSwitchErrorCode::ArtifactIdentityChanged)
        },
        Err(code) => Err(code),
    }
}

/// A path that must hold nothing.
pub open spec fn absent_spec(p: BundleProbe) -> Result<(), ProgramSwitchErrorCode> {
    match p {
        BundleProbe::Absent => Ok(()),
        BundleProbe::Present(_) => Err(ProgramSwitchErrorCode::ArtifactIdentityChanged),
        BundleProbe::Failed(code) => Err(code),
    }
}

pub open spec fn as_result(r: Result<(), ProgramSwitchErrorCode>) -> Result<(), ProgramSwitchError> {
    match r {
        Ok(()) => Ok(()),
        Err(code) => Err(switch_error(code)),
    }
}

pub fn verify_identity_at(probe: BundleProbe, expected: &ProgramFilesystemIdentity) -> (r: Result<
    (),
    ProgramSwitchError,
>)
    ensures
        r == as_result(identity_at_spec(probe, *expected)),
{
    match probe {
        BundleProbe::Absent => Err(ProgramSwitchError::new(ProgramSwitchErrorCode::ArtifactMissing)),
        BundleProbe::Present(id) => {
            if id == *expected {
                Ok(())
            } else {
                Err(ProgramSwitchError::new(ProgramSwitchErrorCode::ArtifactIdentityChanged))
            }
        },
        BundleProbe::Failed(code) => Err(ProgramSwitchError::new(code)),
    }
}

pub fn verify_absent(probe: BundleProbe) -> (r: Result<(), ProgramSwitchError>)
    ensures
        r == as_result(absent_spec(probe)),
{
    match probe {
        BundleProbe::Absent => Ok(()),
        BundleProbe::Present(_) => Err(ProgramSwitchError::new(ProgramSwitchErrorCode::ArtifactIdentityChanged)),
        BundleProbe::Failed(code) => Err(ProgramSwitchError::new(code)),
    }
}

/// What moving a bundle with `expected` identity from one path to another needs.
#[derive(Debug, Clone, Copy, PartialEq, Eq, Structural)]
pub enum MovePlan {
    /// The bundle is still at the source path and the target is free: rename it.
    Rename,
    /// The bundle already is at the target path.
    AlreadyMoved,
}

/// The plan for a move, from what is found at its two ends; anything but the
/// expected bundle at exactly one end is refused.
pub open spec fn move_plan_spec(source: BundleProbe, target: BundleProbe, expected: ProgramFilesystemIdentity) -> Result<
    MovePlan,
    ProgramSwitchErrorCode,
> {
    match source {
        BundleProbe::Failed(code) => Err(code),
        _ => match target {
            BundleProbe::Failed(code) => Err(code),
            _ => if source == BundleProbe::Present(expected) && target == BundleProbe::Absent {
                Ok(MovePlan::Rename)
            } else if source == BundleProbe::Absent && target == BundleProbe::Present(expected) {
                Ok(MovePlan::AlreadyMoved)
            } else {
                Err(ProgramSwitchErrorCode::ArtifactIdentityChanged)
            },
        },
    }
}

pub fn plan_move(source: BundleProbe, target: BundleProbe, expected: &ProgramFilesystemIdentity) -> (r: Result<
    MovePlan,
    ProgramSwitchError,
>)
    ensures
        match move_plan_spec(source, target, *expected) {
            Ok(plan) => r == Ok::<MovePlan, ProgramSwitchError>(plan),
            Err(code) => r == Err::<MovePlan, ProgramSwitchError>(switch_error(code)),
        },
{
    if let BundleProbe::Failed(code) = source {
        return Err(ProgramSwitchError::new(code));
    }
    if let BundleProbe::Failed(code) = target {
        return Err(ProgramSwitchError::new(code));
    }
    match (source, target) {
        (BundleProbe::Present(actual), BundleProbe::Absent) => {
            if actual == *expected {
                return Ok(MovePlan::Rename);
            }
        },
        (BundleProbe::Absent, BundleProbe::Present(actual)) => {
            if actual == *expected {
                return Ok(MovePlan::AlreadyMoved);
            }
        },
        _ => {},
    }
    Err(ProgramSwitchError::new(ProgramSwitchErrorCode::ArtifactIdentityChanged))
}

/// A move is idempotent: once the rename it asks for is done, it asks for nothing more.
pub proof fn lemma_move_is_idempotent(expected: ProgramFilesystemIdentity)
    ensures
        move_plan_spec(BundleProbe::Present(expected), BundleProbe::Absent, expected) == Ok::<
            MovePlan,
            ProgramSwitchErrorCode,
        >(MovePlan::Rename),
        move_plan_spec(BundleProbe::Absent, BundleProbe::Present(expected), expected) == Ok::<
            MovePlan,
            ProgramSwitchErrorCode,
        >(MovePlan::AlreadyMoved),
        forall|s: BundleProbe, t: BundleProbe|
            #![trigger move_plan_spec(s, t, expected)]
            move_plan_spec(s, t, expected) is Ok ==> (s == BundleProbe::Present(expected) && t
                == BundleProbe::Absent) || (s == BundleProbe::Absent && t == BundleProbe::Present(expected)),
{
}


/// The evidence the receipt records in `slot`, if any.
pub open spec fn recorded_evidence(v: InstallReceiptView, slot: InstallArtifactSlot) -> Option<InstallArtifactEvidenceView> {
    if v.has(slot) {
        Some(v.artifacts[choose|i: int| 0 <= i < v.artifacts.len() && #[trigger] v.artifacts[i].slot == slot])
    } else {
        None
    }
}

/// Finds the evidence recorded in `slot`.
pub fn evidence_in(receipt: &InstallReceipt, slot: InstallArtifactSlot) -> (r: Option<&InstallArtifactEvidence>)
    requires
        receipt@.wf(),
    ensures
        match r {
            Some(e) => recorded_evidence(receipt@, slot) == Some(e@) && e@.slot == slot,
            None => recorded_evidence(receipt@, slot) is None,
        },
{
    let r = receipt.artifact(slot);
    proof {
        let v = receipt@;
        lemma_wf_sorted(v);
        if let Some(e) = r {
            let i = choose|i: int|
                0 <= i < v.artifacts.len() && v.artifacts[i] == e@ && e@.slot == slot && forall|k: int|
                    0 <= k < i ==> #[trigger] v.artifacts[k].slot != slot;
            let j = choose|j: int| 0 <= j < v.artifacts.len() && #[trigger] v.artifacts[j].slot == slot;
            if i < j {
                assert(v.artifacts[i].slot.rank_spec() < v.artifacts[j].slot.rank_spec());
            } else if j < i {
                assert(v.artifacts[j].slot.rank_spec() < v.artifacts[i].slot.rank_spec());
            }
        }
    }
    r
}

/// Evidence of a product's program in `slot` with the filesystem identity found.
pub open spec fn evidence_for(
    slot: InstallArtifactSlot,
    program: crate::install_product::ProgramBundleIdentityView,
    fs: ProgramFilesystemIdentity,
) -> InstallArtifactEvidenceView {
    InstallArtifactEvidenceView { slot, identity: program, filesystem_identity: fs }
}

/// Recording evidence that may already be recorded: the same evidence again is
/// accepted as is, different evidence in the slot is refused, and new evidence
/// must be accepted by the receipt.
pub open spec fn record_or_verify_spec(v: InstallReceiptView, ev: InstallArtifactEvidenceView) -> Result<
    (),
    ProgramSwitchErrorCode,
> {
    match recorded_evidence(v, ev.slot) {
        Some(e) => if e == ev {
            Ok(())
        } else {
            Err(ProgramSwitchErrorCode::ArtifactIdentityChanged)
        },
        None => if v.record_result(ev) is Ok {
            Ok(())
        } else {
            Err(ProgramSwitchErrorCode::Receipt)
        },
    }
}

/// The receipt after `record_or_verify_spec` succeeded.
pub open spec fn after_record(v: InstallReceiptView, ev: InstallArtifactEvidenceView) -> InstallReceiptView {
    if v.has(ev.slot) {
        v
    } else {
        v.with_artifacts(insert_by_slot(v.artifacts, ev))
    }
}

pub fn record_or_verify_evidence(receipt: &mut InstallReceipt, evidence: InstallArtifactEvidence) -> (r: Result<
    (),
    ProgramSwitchError,
>)
    requires
        old(receipt)@.wf(),
    ensures
        r == as_result(record_or_verify_spec(old(receipt)@, evidence@)),
        r is Ok ==> final(receipt)@ == after_record(old(receipt)@, evidence@),
        r is Err ==> final(receipt)@ == old(receipt)@,
        final(receipt)@.wf(),
{
    match evidence_in(receipt, evidence.slot()) {
        Some(existing) => {
            if existing.same_as(&evidence) {
                return Ok(());
            }
            return Err(ProgramSwitchError::new(ProgramSwitchErrorCode::ArtifactIdentityChanged));
        },
        None => {},
    }
    match receipt.record_artifact(evidence) {
        Ok(()) => Ok(()),
        Err(_) => Err(ProgramSwitchError::new(ProgramSwitchErrorCode::Receipt)),
    }
}

/// The receipt's program bundle that the store must find, for an operation that
/// has the product.
pub open spec fn expected_evidence(
    slot: InstallArtifactSlot,
    product: Option<crate::install_product::ProductArtifactIdentityView>,
    c: ProgramComponent,
    found: BundleProbe,
) -> Result<InstallArtifactEvidenceView, ProgramSwitchErrorCode> {
    match product {
        None => Err(ProgramSwitchErrorCode::InvalidOperationState),
        Some(p) => match required_spec(found) {
            Err(code) => Err(code),
            Ok(fs) => {
                let ev = evidence_for(slot, p.program(c), fs);
                if ev.check() is Ok {
                    Ok(ev)
                } else {
                    Err(ProgramSwitchErrorCode::Receipt)
                }
            },
        },
    }
}

/// The outcome of recording the evidence `expected` describes.
pub open spec fn record_expected(v: InstallReceiptView, expected: Result<InstallArtifactEvidenceView, ProgramSwitchErrorCode>) -> Result<
    (),
    ProgramSwitchErrorCode,
> {
    match expected {
        Ok(ev) => record_or_verify_spec(v, ev),
        Err(code) => Err(code),
    }
}

fn build_evidence(
    slot: InstallArtifactSlot,
    program: &crate::install_product::ProgramBundleIdentity,
    found: BundleProbe,
) -> (r: Result<InstallArtifactEvidence, ProgramSwitchError>)
    ensures
        match required_spec(found) {
            Err(code) => r == Err::<InstallArtifactEvidence, ProgramSwitchError>(switch_error(code)),
            Ok(fs) => {
                let ev = evidence_for(slot, program@, fs);
                &&& ev.check() is Ok ==> (r matches Ok(e) && e@ == ev)
                &&& ev.check() is Err ==> r == Err::<InstallArtifactEvidence, ProgramSwitchError>(
                    switch_error(ProgramSwitchErrorCode::Receipt),
                )
            },
        },
{
    let fs = match found {
        BundleProbe::Absent => return Err(ProgramSwitchError::new(ProgramSwitchErrorCode::ArtifactMissing)),
        BundleProbe::Present(id) => id,
        BundleProbe::Failed(code) => return Err(ProgramSwitchError::new(code)),
    };
    match InstallArtifactEvidence::new(slot, program.duplicate(), fs) {
        Ok(e) => Ok(e),
        Err(_) => Err(ProgramSwitchError::new(ProgramSwitchErrorCode::Receipt)),
    }
}

/// Records, while quiesced, the source program found at the target path of an
/// operation that replaces or removes programs.
pub fn record_program_source(receipt: &mut InstallReceipt, component: ProgramComponent, found: BundleProbe) -> (r:
    Result<(), ProgramSwitchError>)
    requires
        old(receipt)@.wf(),
    ensures
        ({
            let v = old(receipt)@;
            let expected = expected_evidence(source_slot_spec(component), v.source_product, component, found);
            &&& r == as_result(
                if v.state != InstallState::Quiesced || v.operation_kind == InstallOperationKind::FirstInstall {
                    Err(ProgramSwitchErrorCode::InvalidOperationState)
                } else {
                    record_expected(v, expected)
                },
            )
            &&& r is Ok ==> final(receipt)@ == after_record(v, expected->Ok_0)
        }),
        r is Err ==> final(receipt)@ == old(receipt)@,
        final(receipt)@.wf(),
{
    if receipt.state() != InstallState::Quiesced || receipt.operation_kind() == InstallOperationKind::FirstInstall {
        return Err(ProgramSwitchError::new(ProgramSwitchErrorCode::InvalidOperationState));
    }
    let evidence = match receipt.source_product() {
        None => return Err(ProgramSwitchError::new(ProgramSwitchErrorCode::InvalidOperationState)),
        Some(product) => build_evidence(source_slot(component), product.program(component), found),
    };
    match evidence {
        Ok(e) => record_or_verify_evidence(receipt, e),
        Err(e) => Err(e),
    }
}

/// Records, while quiesced, the target program found staged for an operation that
/// installs programs.
pub fn record_staged_program(receipt: &mut InstallReceipt, component: ProgramComponent, found: BundleProbe) -> (r:
    Result<(), ProgramSwitchError>)
    requires
        old(receipt)@.wf(),
    ensures
        ({
            let v = old(receipt)@;
            let expected = expected_evidence(staged_slot_spec(component), v.target_product, component, found);
            &&& r == as_result(
                if v.state != InstallState::Quiesced || v.operation_kind == InstallOperationKind::RemovePrograms {
                    Err(ProgramSwitchErrorCode::InvalidOperationState)
                } else {
                    record_expected(v, expected)
                },
            )
            &&& r is Ok ==> final(receipt)@ == after_record(v, expected->Ok_0)
        }),
        r is Err ==> final(receipt)@ == old(receipt)@,
        final(receipt)@.wf(),
{
    if receipt.state() != InstallState::Quiesced || receipt.operation_kind()
        == InstallOperationKind::RemovePrograms {
        return Err(ProgramSwitchError::new(ProgramSwitchErrorCode::InvalidOperationState));
    }
    let evidence = match receipt.target_product() {
        None => return Err(ProgramSwitchError::new(ProgramSwitchErrorCode::InvalidOperationState)),
        Some(product) => build_evidence(staged_slot(component), product.program(component), found),
    };
    match evidence {
        Ok(e) => record_or_verify_evidence(receipt, e),
        Err(e) => Err(e),
    }
}


/// What was found at the three paths of one program: its target in the parent
/// directory, the staged bundle and the source backup.
#[derive(Debug, Clone, Copy, PartialEq, Eq, Structural)]
pub struct ProgramPaths {
    pub target: BundleProbe,
    pub staged: BundleProbe,
    pub backup: BundleProbe,
}

/// The recorded evidence in `slot` must be the bundle found.
pub open spec fn evidence_found_spec(v: InstallReceiptView, slot: InstallArtifactSlot, found: BundleProbe) -> Result<
    (),
    ProgramSwitchErrorCode,
> {
    match recorded_evidence(v, slot) {
        None => Err(ProgramSwitchErrorCode::InvalidOperationState),
        Some(e) => identity_at_spec(found, e.filesystem_identity),
    }
}

fn verify_evidence_found(receipt: &InstallReceipt, slot: InstallArtifactSlot, found: BundleProbe) -> (r: Result<
    (),
    ProgramSwitchError,
>)
    requires
        receipt@.wf(),
    ensures
        r == as_result(evidence_found_spec(receipt@, slot, found)),
{
    match evidence_in(receipt, slot) {
        None => Err(ProgramSwitchError::new(ProgramSwitchErrorCode::InvalidOperationState)),
        Some(e) => verify_identity_at(found, e.filesystem_identity()),
    }
}

/// The first failure of two checks made in order.
pub open spec fn first_failure(a: Result<(), ProgramSwitchErrorCode>, b: Result<(), ProgramSwitchErrorCode>) -> Result<
    (),
    ProgramSwitchErrorCode,
> {
    if a is Err {
        a
    } else {
        b
    }
}

/// What finishing the staging checks for one program: its staged bundle is the
/// recorded one, and its target is absent for a first install or is the recorded
/// source otherwise.
pub open spec fn staging_check(v: InstallReceiptView, c: ProgramComponent, paths: ProgramPaths) -> Result<
    (),
    ProgramSwitchErrorCode,
> {
    first_failure(
        evidence_found_spec(v, staged_slot_spec(c), paths.staged),
        if v.operation_kind == InstallOperationKind::FirstInstall {
            absent_spec(paths.target)
        } else {
            evidence_found_spec(v, source_slot_spec(c), paths.target)
        },
    )
}

fn check_staging(receipt: &InstallReceipt, c: ProgramComponent, paths: &ProgramPaths) -> (r: Result<
    (),
    ProgramSwitchError,
>)
    requires
        receipt@.wf(),
        receipt@.operation_kind != InstallOperationKind::RemovePrograms,
    ensures
        r == as_result(staging_check(receipt@, c, *paths)),
{
    match verify_evidence_found(receipt, staged_slot(c), paths.staged) {
        Err(e) => return Err(e),
        Ok(()) => {},
    }
    if receipt.operation_kind() == InstallOperationKind::FirstInstall {
        verify_absent(paths.target)
    } else {
        verify_evidence_found(receipt, source_slot(c), paths.target)
    }
}

/// The outcome of a receipt step that ends in a state change.
pub open spec fn step_outcome(checks: Result<(), ProgramSwitchErrorCode>, advanced: bool) -> Result<
    (),
    ProgramSwitchErrorCode,
> {
    if checks is Err {
        checks
    } else if !advanced {
        Err(ProgramSwitchErrorCode::Receipt)
    } else {
        Ok(())
    }
}

/// Moves a quiesced receipt to `TargetStaged` once both staged bundles, and the
/// sources or their absence, are found as recorded; a receipt already there is
/// left as it is.
pub fn finish_target_staging(receipt: &mut InstallReceipt, manager: &ProgramPaths, input_method: &ProgramPaths) -> (r:
    Result<(), ProgramSwitchError>)
    requires
        old(receipt)@.wf(),
    ensures
        ({
            let v = old(receipt)@;
            if v.state == InstallState::TargetStaged {
                r is Ok && final(receipt)@ == v
            } else if v.state != InstallState::Quiesced || v.operation_kind == InstallOperationKind::RemovePrograms {
                r == Err::<(), ProgramSwitchError>(switch_error(ProgramSwitchErrorCode::InvalidOperationState))
            } else {
                let checks = first_failure(
                    staging_check(v, ProgramComponent::Manager, *manager),
                    staging_check(v, ProgramComponent::InputMethod, *input_method),
                );
                r == as_result(step_outcome(checks, v.advance_result(InstallState::TargetStaged) is Ok))
                    && (r is Ok ==> final(receipt)@ == v.with_state(InstallState::TargetStaged))
            }
        }),
        r is Err ==> final(receipt)@ == old(receipt)@,
        final(receipt)@.wf(),
{
    if receipt.state() == InstallState::TargetStaged {
        return Ok(());
    }
    if receipt.state() != InstallState::Quiesced || receipt.operation_kind()
        == InstallOperationKind::RemovePrograms {
        return Err(ProgramSwitchError::new(ProgramSwitchErrorCode::InvalidOperationState));
    }
    match check_staging(receipt, ProgramComponent::Manager, manager) {
        Err(e) => return Err(e),
        Ok(()) => {},
    }
    match check_staging(receipt, ProgramComponent::InputMethod, input_method) {
        Err(e) => return Err(e),
        Ok(()) => {},
    }
    match receipt.advance(InstallState::TargetStaged) {
        Ok(()) => Ok(()),
        Err(_) => Err(ProgramSwitchError::new(ProgramSwitchErrorCode::Receipt)),
    }
}

/// The state in which a program's source may be moved to its backup.
pub open spec fn preserve_allowed(v: InstallReceiptView) -> bool {
    match v.operation_kind {
        InstallOperationKind::Upgrade | InstallOperationKind::Repair => v.state == InstallState::TargetStaged,
        InstallOperationKind::RemovePrograms => v.state == InstallState::Quiesced,
        InstallOperationKind::FirstInstall => false,
    }
}

/// The move of a program's recorded source from its target path to the backup.
pub open spec fn preserve_plan_spec(v: InstallReceiptView, c: ProgramComponent, paths: ProgramPaths) -> Result<
    MovePlan,
    ProgramSwitchErrorCode,
> {
    if !preserve_allowed(v) {
        Err(ProgramSwitchErrorCode::InvalidOperationState)
    } else {
        match recorded_evidence(v, source_slot_spec(c)) {
            None => Err(ProgramSwitchErrorCode::InvalidOperationState),
            Some(source) => move_plan_spec(paths.target, paths.backup, source.filesystem_identity),
        }
    }
}

pub fn plan_preserve_source(receipt: &InstallReceipt, c: ProgramComponent, paths: &ProgramPaths) -> (r: Result<
    MovePlan,
    ProgramSwitchError,
>)
    requires
        receipt@.wf(),
    ensures
        match preserve_plan_spec(receipt@, c, *paths) {
            Ok(plan) => r == Ok::<MovePlan, ProgramSwitchError>(plan),
            Err(code) => r == Err::<MovePlan, ProgramSwitchError>(switch_error(code)),
        },
{
    let allowed = match receipt.operation_kind() {
        InstallOperationKind::Upgrade | InstallOperationKind::Repair => receipt.state() == InstallState::TargetStaged,
        InstallOperationKind::RemovePrograms => receipt.state() == InstallState::Quiesced,
        InstallOperationKind::FirstInstall => false,
    };
    if !allowed {
        return Err(ProgramSwitchError::new(ProgramSwitchErrorCode::InvalidOperationState));
    }
    match evidence_in(receipt, source_slot(c)) {
        None => Err(ProgramSwitchError::new(ProgramSwitchErrorCode::InvalidOperationState)),
        Some(source) => plan_move(paths.target, paths.backup, source.filesystem_identity()),
    }
}

/// The evidence a finished move leaves: the recorded evidence in `from`, now in `to`.
pub open spec fn moved_evidence(v: InstallReceiptView, from: InstallArtifactSlot, to: InstallArtifactSlot) -> Result<
    InstallArtifactEvidenceView,
    ProgramSwitchErrorCode,
> {
    match recorded_evidence(v, from) {
        None => Err(ProgramSwitchErrorCode::InvalidOperationState),
        Some(e) => {
            let moved = InstallArtifactEvidenceView { slot: to, ..e };
            if moved.check() is Ok {
                Ok(moved)
            } else {
                Err(ProgramSwitchErrorCode::Receipt)
            }
        },
    }
}

fn record_moved_evidence(receipt: &mut InstallReceipt, from: InstallArtifactSlot, to: InstallArtifactSlot) -> (r:
    Result<(), ProgramSwitchError>)
    requires
        old(receipt)@.wf(),
    ensures
        r == as_result(record_expected(old(receipt)@, moved_evidence(old(receipt)@, from, to))),
        r is Ok ==> final(receipt)@ == after_record(old(receipt)@, moved_evidence(old(receipt)@, from, to)->Ok_0),
        r is Err ==> final(receipt)@ == old(receipt)@,
        final(receipt)@.wf(),
{
    let moved = match evidence_in(receipt, from) {
        None => return Err(ProgramSwitchError::new(ProgramSwitchErrorCode::InvalidOperationState)),
        Some(e) => InstallArtifactEvidence::new(to, e.identity().duplicate(), *e.filesystem_identity()),
    };
    match moved {
        Ok(e) => record_or_verify_evidence(receipt, e),
        Err(_) => Err(ProgramSwitchError::new(ProgramSwitchErrorCode::Receipt)),
    }
}

/// Records that a program's source now is its backup.
pub fn record_preserved_source(receipt: &mut InstallReceipt, c: ProgramComponent) -> (r: Result<
    (),
    ProgramSwitchError,
>)
    requires
        old(receipt)@.wf(),
    ensures
        ({
            let moved = moved_evidence(old(receipt)@, source_slot_spec(c), backup_slot_spec(c));
            &&& r == as_result(record_expected(old(receipt)@, moved))
            &&& r is Ok ==> final(receipt)@ == after_record(old(receipt)@, moved->Ok_0)
        }),
        r is Err ==> final(receipt)@ == old(receipt)@,
        final(receipt)@.wf(),
{
    record_moved_evidence(receipt, source_slot(c), backup_slot(c))
}

/// What finishing the preservation checks for one program: its target path is
/// free and its backup is the recorded one.
pub open spec fn preservation_check(v: InstallReceiptView, c: ProgramComponent, paths: ProgramPaths) -> Result<
    (),
    ProgramSwitchErrorCode,
> {
    first_failure(absent_spec(paths.target), evidence_found_spec(v, backup_slot_spec(c), paths.backup))
}

fn check_preservation(receipt: &InstallReceipt, c: ProgramComponent, paths: &ProgramPaths) -> (r: Result<
    (),
    ProgramSwitchError,
>)
    requires
        receipt@.wf(),
    ensures
        r == as_result(preservation_check(receipt@, c, *paths)),
{
    match verify_absent(paths.target) {
        Err(e) => return Err(e),
        Ok(()) => {},
    }
    verify_evidence_found(receipt, backup_slot(c), paths.backup)
}

/// Moves a receipt to `SourcePreserved` once both sources sit in their backups;
/// a receipt already there is left as it is.
pub fn finish_source_preservation(receipt: &mut InstallReceipt, manager: &ProgramPaths, input_method: &ProgramPaths) -> (r:
    Result<(), ProgramSwitchError>)
    requires
        old(receipt)@.wf(),
    ensures
        ({
            let v = old(receipt)@;
            let expected_state = if v.operation_kind == InstallOperationKind::RemovePrograms {
                InstallState::Quiesced
            } else {
                InstallState::TargetStaged
            };
            if v.state == InstallState::SourcePreserved {
                r is Ok && final(receipt)@ == v
            } else if v.state != expected_state || v.operation_kind == InstallOperationKind::FirstInstall {
                r == Err::<(), ProgramSwitchError>(switch_error(ProgramSwitchErrorCode::InvalidOperationState))
            } else {
                let checks = first_failure(
                    preservation_check(v, ProgramComponent::Manager, *manager),
                    preservation_check(v, ProgramComponent::InputMethod, *input_method),
                );
                r == as_result(step_outcome(checks, v.advance_result(InstallState::SourcePreserved) is Ok))
                    && (r is Ok ==> final(receipt)@ == v.with_state(InstallState::SourcePreserved))
            }
        }),
        r is Err ==> final(receipt)@ == old(receipt)@,
        final(receipt)@.wf(),
{
    if receipt.state() == InstallState::SourcePreserved {
        return Ok(());
    }
    let expected_state = if receipt.operation_kind() == InstallOperationKind::RemovePrograms {
        InstallState::Quiesced
    } else {
        InstallState::TargetStaged
    };
    if receipt.state() != expected_state || receipt.operation_kind() == InstallOperationKind::FirstInstall {
        return Err(ProgramSwitchError::new(ProgramSwitchErrorCode::InvalidOperationState));
    }
    match check_preservation(receipt, ProgramComponent::Manager, manager) {
        Err(e) => return Err(e),
        Ok(()) => {},
    }
    match check_preservation(receipt, ProgramComponent::InputMethod, input_method) {
        Err(e) => return Err(e),
        Ok(()) => {},
    }
    match receipt.advance(InstallState::SourcePreserved) {
        Ok(()) => Ok(()),
        Err(_) => Err(ProgramSwitchError::new(ProgramSwitchErrorCode::Receipt)),
    }
}


/// What committing a program's target needs.
#[derive(Debug, Clone, Copy, PartialEq, Eq, Structural)]
pub enum CommitPlan {
    /// The receipt already records the commit, and the installed bundle is in place.
    AlreadyCommitted,
    /// The staged bundle moves to the target path, as the move plan says.
    Move(MovePlan),
}

/// Committing the staged target: from the program's commit state, or for a first
/// install's Manager right after staging, never for a removal.
pub open spec fn commit_plan_spec(v: InstallReceiptView, c: ProgramComponent, paths: ProgramPaths) -> Result<
    CommitPlan,
    ProgramSwitchErrorCode,
> {
    let (expected, committed) = commit_states_spec(c);
    let first_install_manager = v.operation_kind == InstallOperationKind::FirstInstall && c
        == ProgramComponent::Manager && v.state == InstallState::TargetStaged;
    if v.state == committed {
        match evidence_found_spec(v, installed_slot_spec(c), paths.target) {
            Ok(()) => Ok(CommitPlan::AlreadyCommitted),
            Err(code) => Err(code),
        }
    } else if v.operation_kind == InstallOperationKind::RemovePrograms || (v.state != expected
        && !first_install_manager) {
        Err(ProgramSwitchErrorCode::InvalidOperationState)
    } else {
        match recorded_evidence(v, staged_slot_spec(c)) {
            None => Err(ProgramSwitchErrorCode::InvalidOperationState),
            Some(staged) => match move_plan_spec(paths.staged, paths.target, staged.filesystem_identity) {
                Ok(plan) => Ok(CommitPlan::Move(plan)),
                Err(code) => Err(code),
            },
        }
    }
}

pub fn plan_commit_target(receipt: &InstallReceipt, c: ProgramComponent, paths: &ProgramPaths) -> (r: Result<
    CommitPlan,
    ProgramSwitchError,
>)
    requires
        receipt@.wf(),
    ensures
        match commit_plan_spec(receipt@, c, *paths) {
            Ok(plan) => r == Ok::<CommitPlan, ProgramSwitchError>(plan),
            Err(code) => r == Err::<CommitPlan, ProgramSwitchError>(switch_error(code)),
        },
{
    let (expected, committed) = commit_states(c);
    if receipt.state() == committed {
        return match verify_evidence_found(receipt, installed_slot(c), paths.target) {
            Ok(()) => Ok(CommitPlan::AlreadyCommitted),
            Err(e) => Err(e),
        };
    }
    let first_install_manager = receipt.operation_kind() == InstallOperationKind::FirstInstall && c
        == ProgramComponent::Manager && receipt.state() == InstallState::TargetStaged;
    if receipt.operation_kind() == InstallOperationKind::RemovePrograms || (receipt.state() != expected
        && !first_install_manager) {
        return Err(ProgramSwitchError::new(ProgramSwitchErrorCode::InvalidOperationState));
    }
    match evidence_in(receipt, staged_slot(c)) {
        None => Err(ProgramSwitchError::new(ProgramSwitchErrorCode::InvalidOperationState)),
        Some(staged) => match plan_move(paths.staged, paths.target, staged.filesystem_identity()) {
            Ok(plan) => Ok(CommitPlan::Move(plan)),
            Err(e) => Err(e),
        },
    }
}

/// Records that a program's staged bundle now is its installed target.
pub fn record_committed_target(receipt: &mut InstallReceipt, c: ProgramComponent) -> (r: Result<
    (),
    ProgramSwitchError,
>)
    requires
        old(receipt)@.wf(),
    ensures
        ({
            let moved = moved_evidence(old(receipt)@, staged_slot_spec(c), installed_slot_spec(c));
            &&& r == as_result(record_expected(old(receipt)@, moved))
            &&& r is Ok ==> final(receipt)@ == after_record(old(receipt)@, moved->Ok_0)
        }),
        r is Err ==> final(receipt)@ == old(receipt)@,
        final(receipt)@.wf(),
{
    record_moved_evidence(receipt, staged_slot(c), installed_slot(c))
}

/// Takes the receipt to the state a program's commit leads to.
pub fn advance_to_committed(receipt: &mut InstallReceipt, c: ProgramComponent) -> (r: Result<
    (),
    ProgramSwitchError,
>)
    requires
        old(receipt)@.wf(),
    ensures
        r is Ok <==> old(receipt)@.advance_result(commit_states_spec(c).1) is Ok,
        r is Ok ==> final(receipt)@ == old(receipt)@.with_state(commit_states_spec(c).1),
        r is Err ==> r == Err::<(), ProgramSwitchError>(switch_error(ProgramSwitchErrorCode::Receipt))
            && final(receipt)@ == old(receipt)@,
        final(receipt)@.wf(),
{
    let (_, committed) = commit_states(c);
    match receipt.advance(committed) {
        Ok(()) => Ok(()),
        Err(_) => Err(ProgramSwitchError::new(ProgramSwitchErrorCode::Receipt)),
    }
}

/// Commits a program's removal once its target is gone and its backup is the
/// recorded one; a receipt that already records the removal only needs the
/// target to stay gone.
pub fn commit_program_removal(receipt: &mut InstallReceipt, c: ProgramComponent, paths: &ProgramPaths) -> (r: Result<
    (),
    ProgramSwitchError,
>)
    requires
        old(receipt)@.wf(),
    ensures
        ({
            let v = old(receipt)@;
            let (expected, committed) = commit_states_spec(c);
            if v.state == committed {
                r == as_result(absent_spec(paths.target)) && final(receipt)@ == v
            } else if v.operation_kind != InstallOperationKind::RemovePrograms || v.state != expected {
                r == Err::<(), ProgramSwitchError>(switch_error(ProgramSwitchErrorCode::InvalidOperationState))
            } else {
                r == as_result(step_outcome(preservation_check(v, c, *paths), v.advance_result(committed) is Ok))
                    && (r is Ok ==> final(receipt)@ == v.with_state(committed))
            }
        }),
        r is Err ==> final(receipt)@ == old(receipt)@,
        final(receipt)@.wf(),
{
    let (expected, committed) = commit_states(c);
    if receipt.state() == committed {
        return verify_absent(paths.target);
    }
    if receipt.operation_kind() != InstallOperationKind::RemovePrograms || receipt.state() != expected {
        return Err(ProgramSwitchError::new(ProgramSwitchErrorCode::InvalidOperationState));
    }
    match check_preservation(receipt, c, paths) {
        Err(e) => return Err(e),
        Ok(()) => {},
    }
    match receipt.advance(committed) {
        Ok(()) => Ok(()),
        Err(_) => Err(ProgramSwitchError::new(ProgramSwitchErrorCode::Receipt)),
    }
}

/// The states in which a program's source may be restored.
pub open spec fn restoring(v: InstallReceiptView) -> bool {
    v.state == InstallState::RollbackRequired || v.state == InstallState::ProgramsRestored
}

/// The first half of a restore: an installed target goes back to the stage unless
/// it already is there; without one, a recorded staged bundle must still be staged
/// and the target path free. The result is the rename to make, if any.
pub open spec fn return_plan_spec(v: InstallReceiptView, c: ProgramComponent, paths: ProgramPaths) -> Result<
    Option<MovePlan>,
    ProgramSwitchErrorCode,
> {
    if !restoring(v) {
        Err(ProgramSwitchErrorCode::InvalidOperationState)
    } else {
        match recorded_evidence(v, installed_slot_spec(c)) {
            Some(installed) => match paths.staged {
                BundleProbe::Failed(code) => Err(code),
                _ => if paths.staged == BundleProbe::Present(installed.filesystem_identity) {
                    Ok(None)
                } else {
                    match move_plan_spec(paths.target, paths.staged, installed.filesystem_identity) {
                        Ok(plan) => Ok(Some(plan)),
                        Err(code) => Err(code),
                    }
                },
            },
            None => match recorded_evidence(v, staged_slot_spec(c)) {
                Some(staged) => match first_failure(
                    identity_at_spec(paths.staged, staged.filesystem_identity),
                    absent_spec(paths.target),
                ) {
                    Ok(()) => Ok(None),
                    Err(code) => Err(code),
                },
                None => Ok(None),
            },
        }
    }
}

pub fn plan_return_target(receipt: &InstallReceipt, c: ProgramComponent, paths: &ProgramPaths) -> (r: Result<
    Option<MovePlan>,
    ProgramSwitchError,
>)
    requires
        receipt@.wf(),
    ensures
        match return_plan_spec(receipt@, c, *paths) {
            Ok(plan) => r == Ok::<Option<MovePlan>, ProgramSwitchError>(plan),
            Err(code) => r == Err::<Option<MovePlan>, ProgramSwitchError>(switch_error(code)),
        },
{
    if !matches!(receipt.state(), InstallState::RollbackRequired | InstallState::ProgramsRestored) {
        return Err(ProgramSwitchError::new(ProgramSwitchErrorCode::InvalidOperationState));
    }
    match evidence_in(receipt, installed_slot(c)) {
        Some(installed) => {
            if let BundleProbe::Failed(code) = paths.staged {
                return Err(ProgramSwitchError::new(code));
            }
            let already_returned = match paths.staged {
                BundleProbe::Present(id) => id == *installed.filesystem_identity(),
                _ => false,
            };
            if already_returned {
                return Ok(None);
            }
            match plan_move(paths.target, paths.staged, installed.filesystem_identity()) {
                Ok(plan) => Ok(Some(plan)),
                Err(e) => Err(e),
            }
        },
        None => match evidence_in(receipt, staged_slot(c)) {
            Some(staged) => {
                match verify_identity_at(paths.staged, staged.filesystem_identity()) {
                    Err(e) => return Err(e),
                    Ok(()) => {},
                }
                match verify_absent(paths.target) {
                    Err(e) => Err(e),
                    Ok(()) => Ok(None),
                }
            },
            None => Ok(None),
        },
    }
}

/// The second half of a restore: a recorded source moves back from its backup to
/// the target path; without one the target path must be free.
pub open spec fn source_restore_plan_spec(v: InstallReceiptView, c: ProgramComponent, paths: ProgramPaths) -> Result<
    Option<MovePlan>,
    ProgramSwitchErrorCode,
> {
    if !restoring(v) {
        Err(ProgramSwitchErrorCode::InvalidOperationState)
    } else {
        match recorded_evidence(v, source_slot_spec(c)) {
            Some(source) => match move_plan_spec(paths.backup, paths.target, source.filesystem_identity) {
                Ok(plan) => Ok(Some(plan)),
                Err(code) => Err(code),
            },
            None => match absent_spec(paths.target) {
                Ok(()) => Ok(None),
                Err(code) => Err(code),
            },
        }
    }
}

pub fn plan_restore_source(receipt: &InstallReceipt, c: ProgramComponent, paths: &ProgramPaths) -> (r: Result<
    Option<MovePlan>,
    ProgramSwitchError,
>)
    requires
        receipt@.wf(),
    ensures
        match source_restore_plan_spec(receipt@, c, *paths) {
            Ok(plan) => r == Ok::<Option<MovePlan>, ProgramSwitchError>(plan),
            Err(code) => r == Err::<Option<MovePlan>, ProgramSwitchError>(switch_error(code)),
        },
{
    if !matches!(receipt.state(), InstallState::RollbackRequired | InstallState::ProgramsRestored) {
        return Err(ProgramSwitchError::new(ProgramSwitchErrorCode::InvalidOperationState));
    }
    match evidence_in(receipt, source_slot(c)) {
        Some(source) => match plan_move(paths.backup, paths.target, source.filesystem_identity()) {
            Ok(plan) => Ok(Some(plan)),
            Err(e) => Err(e),
        },
        None => match verify_absent(paths.target) {
            Ok(()) => Ok(None),
            Err(e) => Err(e),
        },
    }
}

/// What a finished restore leaves for one program: the recorded source back at
/// the target path with its backup gone (or no target without a source), and a
/// recorded staged bundle still staged.
pub open spec fn restored_check(v: InstallReceiptView, c: ProgramComponent, paths: ProgramPaths) -> Result<
    (),
    ProgramSwitchErrorCode,
> {
    first_failure(
        match recorded_evidence(v, source_slot_spec(c)) {
            Some(source) => first_failure(
                identity_at_spec(paths.target, source.filesystem_identity),
                absent_spec(paths.backup),
            ),
            None => absent_spec(paths.target),
        },
        match recorded_evidence(v, staged_slot_spec(c)) {
            Some(staged) => identity_at_spec(paths.staged, staged.filesystem_identity),
            None => Ok(()),
        },
    )
}

fn check_restored(receipt: &InstallReceipt, c: ProgramComponent, paths: &ProgramPaths) -> (r: Result<
    (),
    ProgramSwitchError,
>)
    requires
        receipt@.wf(),
    ensures
        r == as_result(restored_check(receipt@, c, *paths)),
{
    match evidence_in(receipt, source_slot(c)) {
        Some(source) => {
            match verify_identity_at(paths.target, source.filesystem_identity()) {
                Err(e) => return Err(e),
                Ok(()) => {},
            }
            match verify_absent(paths.backup) {
                Err(e) => return Err(e),
                Ok(()) => {},
            }
        },
        None => match verify_absent(paths.target) {
            Err(e) => return Err(e),
            Ok(()) => {},
        },
    }
    match evidence_in(receipt, staged_slot(c)) {
        Some(staged) => verify_identity_at(paths.staged, staged.filesystem_identity()),
        None => Ok(()),
    }
}

/// Records that both programs are restored, once each is found as a restore
/// leaves it; a receipt already there is left as it is.
pub fn finish_program_restore(receipt: &mut InstallReceipt, manager: &ProgramPaths, input_method: &ProgramPaths) -> (r:
    Result<(), ProgramSwitchError>)
    requires
        old(receipt)@.wf(),
    ensures
        ({
            let v = old(receipt)@;
            if v.state == InstallState::ProgramsRestored {
                r is Ok && final(receipt)@ == v
            } else if v.state != InstallState::RollbackRequired {
                r == Err::<(), ProgramSwitchError>(switch_error(ProgramSwitchErrorCode::InvalidOperationState))
            } else {
                r == as_result(
                    first_failure(
                        restored_check(v, ProgramComponent::Manager, *manager),
                        restored_check(v, ProgramComponent::InputMethod, *input_method),
                    ),
                ) && (r is Ok ==> final(receipt)@ == v.with_state(InstallState::ProgramsRestored))
            }
        }),
        r is Err ==> final(receipt)@ == old(receipt)@,
        final(receipt)@.wf(),
{
    if receipt.state() == InstallState::ProgramsRestored {
        return Ok(());
    }
    if receipt.state() != InstallState::RollbackRequired {
        return Err(ProgramSwitchError::new(ProgramSwitchErrorCode::InvalidOperationState));
    }
    match check_restored(receipt, ProgramComponent::Manager, manager) {
        Err(e) => return Err(e),
        Ok(()) => {},
    }
    match check_restored(receipt, ProgramComponent::InputMethod, input_method) {
        Err(e) => return Err(e),
        Ok(()) => {},
    }
    match receipt.mark_programs_restored() {
        Ok(()) => Ok(()),
        Err(_) => Err(ProgramSwitchError::new(ProgramSwitchErrorCode::Receipt)),
    }
}

/// A program store belongs to a receipt's operation and owner.
pub fn verify_binding(receipt: &InstallReceipt, operation_id: &str, expected_owner_id: u32) -> (r: Result<
    (),
    ProgramSwitchError,
>)
    ensures
        r is Ok <==> receipt@.operation_id == operation_id@ && receipt@.root_identity.owner_id_spec()
            == expected_owner_id,
        r is Err ==> r == Err::<(), ProgramSwitchError>(switch_error(ProgramSwitchErrorCode::InvalidOperationState)),
{
    if !crate::text::same_text(receipt.operation_id(), operation_id) || receipt.root_identity().owner_id()
        != expected_owner_id {
        return Err(ProgramSwitchError::new(ProgramSwitchErrorCode::InvalidOperationState));
    }
    Ok(())
}


/// The directory that receives a program bundle: a directory of the expected
/// owner that neither group nor others may write, with a positive inode.
pub open spec fn safe_target_parent(f: BundleFacts, owner_id: u32) -> bool {
    f.is_directory && f.owner_id == owner_id && f.mode & 0o022u32 == 0 && f.inode != 0
}

pub fn is_safe_target_parent(f: &BundleFacts, owner_id: u32) -> (r: bool)
    ensures
        r == safe_target_parent(*f, owner_id),
{
    f.is_directory && f.owner_id == owner_id && f.mode & 0o022u32 == 0 && f.inode != 0
}

/// The transaction directory beside a target: private to the expected owner,
/// mode `0700`, on the target's filesystem, with a positive inode.
pub open spec fn private_transaction_directory(f: BundleFacts, owner_id: u32, device_id: u64) -> bool {
    f.is_directory && f.owner_id == owner_id && bundle_permissions(f.mode) == 0o700u32 && f.device_id == device_id
        && f.inode != 0
}

pub fn is_private_transaction_directory(f: &BundleFacts, owner_id: u32, device_id: u64) -> (r: bool)
    ensures
        r == private_transaction_directory(*f, owner_id, device_id),
{
    f.is_directory && f.owner_id == owner_id && f.mode & 0o7777u32 == 0o700u32 && f.device_id == device_id
        && f.inode != 0
}

/// The staged bundle's name inside a transaction directory.
pub const STAGED_BUNDLE_NAME: &'static str = "staged.app";

/// The preserved source bundle's name inside a transaction directory.
pub const SOURCE_BACKUP_BUNDLE_NAME: &'static str = "source-backup.app";

/// A transaction directory holds only the staged bundle and the source backup.
pub fn is_transaction_entry(name: &str) -> (r: bool)
    ensures
        r <==> (name@ == STAGED_BUNDLE_NAME@ || name@ == SOURCE_BACKUP_BUNDLE_NAME@),
{
    crate::text::same_text(name, STAGED_BUNDLE_NAME) || crate::text::same_text(name, SOURCE_BACKUP_BUNDLE_NAME)
}

} // verus!

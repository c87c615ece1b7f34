use radishlex::install_artifact::ProgramFilesystemIdentity;
use radishlex::install_finalization::{
    apply_finalization_stage, finalization_plan, valid_finalization_state, FinalizationPlan,
    InstallFinalizationError, InstallFinalizationValidationStage,
};
use radishlex::install_gate::{
    plan_install_persist, validate_install_entry, verify_current_receipt,
    InstallFilesystemErrorCode, InstallPersistPlan,
};
use radishlex::install_product::{
    InstallFailureCode, InstallOperationKind, InstallRootIdentity, InstallState,
    ProductArtifactIdentity, ProductRelease, ProgramBundleIdentity, ProgramComponent,
    INSTALL_PRODUCT_ID,
};
use radishlex::install_receipt::InstallReceipt;
use radishlex::install_switch::{
    advance_to_committed, bundle_name, check_fault, fault_outcome, commit_program_removal, commit_states,
    finish_program_restore, finish_source_preservation, finish_target_staging,
    plan_commit_target, plan_move, plan_preserve_source, plan_restore_source, plan_return_target,
    probe_bundle, record_committed_target, record_preserved_source, record_program_source,
    record_staged_program, verify_binding, BundleFacts, BundleProbe, CommitPlan, MovePlan,
    NoProgramSwitchFaults, ProgramPaths, ProgramSwitchAction, ProgramSwitchBoundary,
    ProgramSwitchErrorCode, ProgramSwitchFaultInjector, ProgramSwitchFaultPoint,
    INPUT_METHOD_BUNDLE_NAME, MANAGER_BUNDLE_NAME,
};

fn hash(byte: char) -> String {
    byte.to_string().repeat(64)
}

fn bundle(component: ProgramComponent, bundle_id: &str, tree: char, code: char) -> ProgramBundleIdentity {
    ProgramBundleIdentity::new(component, bundle_id.to_string(), hash(tree), hash(code))
        .expect("bundle identity")
}

fn product(version: &str, build: u64, marker: u8) -> ProductArtifactIdentity {
    let hex =
        |offset: u8| char::from_digit(u32::from(marker * 5 + offset), 16).expect("hex marker");
    ProductArtifactIdentity::new(
        INSTALL_PRODUCT_ID.to_string(),
        ProductRelease::new(version.to_string(), build).expect("release"),
        hash(hex(0)),
        bundle(ProgramComponent::Manager, "org.radishlex.manager", hex(1), hex(2)),
        bundle(ProgramComponent::InputMethod, "org.radishlex.inputmethod", hex(3), hex(4)),
    )
    .expect("product identity")
}

fn root() -> InstallRootIdentity {
    InstallRootIdentity::new(10, 20, 501, 0o700).expect("root identity")
}

fn receipt(kind: InstallOperationKind) -> InstallReceipt {
    let source = match kind {
        InstallOperationKind::FirstInstall => None,
        _ => Some(product("0.0.9", 34, 0)),
    };
    let target = match kind {
        InstallOperationKind::RemovePrograms => None,
        _ => Some(product("0.1.0", 35, 1)),
    };
    InstallReceipt::new(
        "00112233445566778899aabbccddeeff".to_string(),
        None,
        kind,
        root(),
        source,
        target,
    )
    .expect("install receipt")
}

fn fs(inode: u64) -> ProgramFilesystemIdentity {
    ProgramFilesystemIdentity::new(10, inode, 501, 0o755).expect("filesystem identity")
}

fn source_fs(component: ProgramComponent) -> ProgramFilesystemIdentity {
    match component {
        ProgramComponent::Manager => fs(100),
        ProgramComponent::InputMethod => fs(101),
    }
}

fn staged_fs(component: ProgramComponent) -> ProgramFilesystemIdentity {
    match component {
        ProgramComponent::Manager => fs(200),
        ProgramComponent::InputMethod => fs(201),
    }
}

fn paths(target: BundleProbe, staged: BundleProbe, backup: BundleProbe) -> ProgramPaths {
    ProgramPaths { target, staged, backup }
}

const COMPONENTS: [ProgramComponent; 2] = [ProgramComponent::Manager, ProgramComponent::InputMethod];

fn staged_upgrade() -> InstallReceipt {
    let mut receipt = receipt(InstallOperationKind::Upgrade);
    receipt.advance(InstallState::Quiesced).expect("quiesced");
    for component in COMPONENTS {
        record_program_source(&mut receipt, component, BundleProbe::Present(source_fs(component)))
            .expect("source recorded");
        record_staged_program(&mut receipt, component, BundleProbe::Present(staged_fs(component)))
            .expect("staged recorded");
    }
    let found = |component| {
        paths(
            BundleProbe::Present(source_fs(component)),
            BundleProbe::Present(staged_fs(component)),
            BundleProbe::Absent,
        )
    };
    finish_target_staging(
        &mut receipt,
        &found(ProgramComponent::Manager),
        &found(ProgramComponent::InputMethod),
    )
    .expect("target staged");
    assert_eq!(receipt.state(), InstallState::TargetStaged);
    receipt
}

fn preserved_upgrade() -> InstallReceipt {
    let mut receipt = staged_upgrade();
    for component in COMPONENTS {
        let before = paths(
            BundleProbe::Present(source_fs(component)),
            BundleProbe::Present(staged_fs(component)),
            BundleProbe::Absent,
        );
        assert_eq!(plan_preserve_source(&receipt, component, &before), Ok(MovePlan::Rename));
        record_preserved_source(&mut receipt, component).expect("backup recorded");
        let after = paths(
            BundleProbe::Absent,
            BundleProbe::Present(staged_fs(component)),
            BundleProbe::Present(source_fs(component)),
        );
        assert_eq!(plan_preserve_source(&receipt, component, &after), Ok(MovePlan::AlreadyMoved));
    }
    let moved = |component| {
        paths(
            BundleProbe::Absent,
            BundleProbe::Present(staged_fs(component)),
            BundleProbe::Present(source_fs(component)),
        )
    };
    finish_source_preservation(
        &mut receipt,
        &moved(ProgramComponent::Manager),
        &moved(ProgramComponent::InputMethod),
    )
    .expect("source preserved");
    assert_eq!(receipt.state(), InstallState::SourcePreserved);
    receipt
}

fn committed_upgrade() -> InstallReceipt {
    let mut receipt = preserved_upgrade();
    for component in COMPONENTS {
        let before = paths(
            BundleProbe::Absent,
            BundleProbe::Present(staged_fs(component)),
            BundleProbe::Present(source_fs(component)),
        );
        assert_eq!(
            plan_commit_target(&receipt, component, &before),
            Ok(CommitPlan::Move(MovePlan::Rename))
        );
        record_committed_target(&mut receipt, component).expect("installed recorded");
        advance_to_committed(&mut receipt, component).expect("committed");
        assert_eq!(receipt.state(), commit_states(component).1);
        let after = paths(
            BundleProbe::Present(staged_fs(component)),
            BundleProbe::Absent,
            BundleProbe::Present(source_fs(component)),
        );
        assert_eq!(
            plan_commit_target(&receipt, component, &after),
            Ok(CommitPlan::AlreadyCommitted)
        );
    }
    receipt
}

#[test]
fn upgrade_switch_records_every_rename_and_finalizes_after_validation() {
    let mut receipt = committed_upgrade();
    assert_eq!(receipt.state(), InstallState::ProgramsCommitted);
    assert_eq!(
        finalization_plan(receipt.operation_kind(), receipt.state()),
        Err(InstallFinalizationError::InvalidState)
    );
    receipt.advance(InstallState::DataCoordinating).expect("data coordinating");
    receipt.advance(InstallState::DataSettled).expect("data settled");
    let plan = finalization_plan(receipt.operation_kind(), receipt.state()).expect("plan");
    assert_eq!(
        plan,
        FinalizationPlan::Advance(InstallFinalizationValidationStage::BeforeFinalVerified)
    );
    assert_eq!(
        apply_finalization_stage(
            &mut receipt,
            InstallFinalizationValidationStage::BeforeFinalVerified,
            false
        ),
        Err(InstallFinalizationError::FinalStateNotProven(
            InstallFinalizationValidationStage::BeforeFinalVerified
        ))
    );
    assert_eq!(receipt.state(), InstallState::DataSettled);
    apply_finalization_stage(
        &mut receipt,
        InstallFinalizationValidationStage::BeforeFinalVerified,
        true,
    )
    .expect("final verified");
    assert_eq!(
        finalization_plan(receipt.operation_kind(), receipt.state()),
        Ok(FinalizationPlan::Advance(InstallFinalizationValidationStage::BeforeCompleted))
    );
    apply_finalization_stage(&mut receipt, InstallFinalizationValidationStage::BeforeCompleted, true)
        .expect("completed");
    assert_eq!(receipt.state(), InstallState::Completed);
    assert_eq!(
        finalization_plan(receipt.operation_kind(), receipt.state()),
        Ok(FinalizationPlan::ConfirmCompleted)
    );
    assert!(valid_finalization_state(InstallOperationKind::Repair, InstallState::ProgramsCommitted));
    assert!(!valid_finalization_state(InstallOperationKind::Upgrade, InstallState::ProgramsCommitted));
}

#[test]
fn staging_refuses_drifted_bundles_and_wrong_states() {
    let mut receipt = receipt(InstallOperationKind::Upgrade);
    assert_eq!(
        record_program_source(
            &mut receipt,
            ProgramComponent::Manager,
            BundleProbe::Present(source_fs(ProgramComponent::Manager))
        )
        .err()
        .map(|e| e.code()),
        Some(ProgramSwitchErrorCode::InvalidOperationState)
    );
    receipt.advance(InstallState::Quiesced).expect("quiesced");
    assert_eq!(
        record_program_source(&mut receipt, ProgramComponent::Manager, BundleProbe::Absent)
            .err()
            .map(|e| e.code()),
        Some(ProgramSwitchErrorCode::ArtifactMissing)
    );
    record_program_source(
        &mut receipt,
        ProgramComponent::Manager,
        BundleProbe::Present(source_fs(ProgramComponent::Manager)),
    )
    .expect("source recorded");
    record_program_source(
        &mut receipt,
        ProgramComponent::Manager,
        BundleProbe::Present(source_fs(ProgramComponent::Manager)),
    )
    .expect("same evidence again is accepted");
    assert_eq!(
        record_program_source(&mut receipt, ProgramComponent::Manager, BundleProbe::Present(fs(999)))
            .err()
            .map(|e| e.code()),
        Some(ProgramSwitchErrorCode::ArtifactIdentityChanged)
    );
    let unrecorded = paths(
        BundleProbe::Present(source_fs(ProgramComponent::Manager)),
        BundleProbe::Present(staged_fs(ProgramComponent::Manager)),
        BundleProbe::Absent,
    );
    assert_eq!(
        finish_target_staging(&mut receipt, &unrecorded, &unrecorded)
            .err()
            .map(|e| e.code()),
        Some(ProgramSwitchErrorCode::InvalidOperationState)
    );
    assert_eq!(receipt.state(), InstallState::Quiesced);
}

#[test]
fn first_install_stages_into_an_empty_target() {
    let mut receipt = receipt(InstallOperationKind::FirstInstall);
    receipt.advance(InstallState::Quiesced).expect("quiesced");
    assert_eq!(
        record_program_source(&mut receipt, ProgramComponent::Manager, BundleProbe::Absent)
            .err()
            .map(|e| e.code()),
        Some(ProgramSwitchErrorCode::InvalidOperationState)
    );
    for component in COMPONENTS {
        record_staged_program(&mut receipt, component, BundleProbe::Present(staged_fs(component)))
            .expect("staged recorded");
    }
    let occupied = paths(
        BundleProbe::Present(fs(300)),
        BundleProbe::Present(staged_fs(ProgramComponent::Manager)),
        BundleProbe::Absent,
    );
    let input_method = paths(
        BundleProbe::Absent,
        BundleProbe::Present(staged_fs(ProgramComponent::InputMethod)),
        BundleProbe::Absent,
    );
    assert_eq!(
        finish_target_staging(&mut receipt, &occupied, &input_method)
            .err()
            .map(|e| e.code()),
        Some(ProgramSwitchErrorCode::ArtifactIdentityChanged)
    );
    let manager = paths(
        BundleProbe::Absent,
        BundleProbe::Present(staged_fs(ProgramComponent::Manager)),
        BundleProbe::Absent,
    );
    finish_target_staging(&mut receipt, &manager, &input_method).expect("target staged");
    assert_eq!(
        plan_commit_target(&receipt, ProgramComponent::Manager, &manager),
        Ok(CommitPlan::Move(MovePlan::Rename))
    );
    assert_eq!(
        plan_commit_target(&receipt, ProgramComponent::InputMethod, &input_method)
            .err()
            .map(|e| e.code()),
        Some(ProgramSwitchErrorCode::InvalidOperationState)
    );
}

#[test]
fn rollback_returns_targets_and_restores_sources() {
    let mut receipt = committed_upgrade();
    assert_eq!(
        plan_return_target(
            &receipt,
            ProgramComponent::Manager,
            &paths(BundleProbe::Absent, BundleProbe::Absent, BundleProbe::Absent)
        )
        .err()
        .map(|e| e.code()),
        Some(ProgramSwitchErrorCode::InvalidOperationState)
    );
    receipt
        .require_rollback(InstallFailureCode::DataCoordinationFailed)
        .expect("rollback required");
    for component in COMPONENTS {
        let committed = paths(
            BundleProbe::Present(staged_fs(component)),
            BundleProbe::Absent,
            BundleProbe::Present(source_fs(component)),
        );
        assert_eq!(
            plan_return_target(&receipt, component, &committed),
            Ok(Some(MovePlan::Rename))
        );
        let returned = paths(
            BundleProbe::Absent,
            BundleProbe::Present(staged_fs(component)),
            BundleProbe::Present(source_fs(component)),
        );
        assert_eq!(plan_return_target(&receipt, component, &returned), Ok(None));
        assert_eq!(
            plan_restore_source(&receipt, component, &returned),
            Ok(Some(MovePlan::Rename))
        );
        let restored = paths(
            BundleProbe::Present(source_fs(component)),
            BundleProbe::Present(staged_fs(component)),
            BundleProbe::Absent,
        );
        assert_eq!(
            plan_restore_source(&receipt, component, &restored),
            Ok(Some(MovePlan::AlreadyMoved))
        );
    }
    let restored = |component| {
        paths(
            BundleProbe::Present(source_fs(component)),
            BundleProbe::Present(staged_fs(component)),
            BundleProbe::Absent,
        )
    };
    let leftover = paths(
        BundleProbe::Present(source_fs(ProgramComponent::Manager)),
        BundleProbe::Present(staged_fs(ProgramComponent::Manager)),
        BundleProbe::Present(source_fs(ProgramComponent::Manager)),
    );
    assert_eq!(
        finish_program_restore(&mut receipt, &leftover, &restored(ProgramComponent::InputMethod))
            .err()
            .map(|e| e.code()),
        Some(ProgramSwitchErrorCode::ArtifactIdentityChanged)
    );
    finish_program_restore(
        &mut receipt,
        &restored(ProgramComponent::Manager),
        &restored(ProgramComponent::InputMethod),
    )
    .expect("programs restored");
    assert_eq!(receipt.state(), InstallState::ProgramsRestored);
    receipt.mark_rolled_back().expect("rolled back");
}

#[test]
fn removal_commits_once_targets_are_gone() {
    let mut receipt = receipt(InstallOperationKind::RemovePrograms);
    receipt.advance(InstallState::Quiesced).expect("quiesced");
    for component in COMPONENTS {
        record_program_source(&mut receipt, component, BundleProbe::Present(source_fs(component)))
            .expect("source recorded");
        assert_eq!(
            plan_preserve_source(
                &receipt,
                component,
                &paths(BundleProbe::Present(source_fs(component)), BundleProbe::Absent, BundleProbe::Absent)
            ),
            Ok(MovePlan::Rename)
        );
        record_preserved_source(&mut receipt, component).expect("backup recorded");
    }
    let moved = |component| {
        paths(BundleProbe::Absent, BundleProbe::Absent, BundleProbe::Present(source_fs(component)))
    };
    finish_source_preservation(
        &mut receipt,
        &moved(ProgramComponent::Manager),
        &moved(ProgramComponent::InputMethod),
    )
    .expect("source preserved");
    for component in COMPONENTS {
        commit_program_removal(&mut receipt, component, &moved(component)).expect("removed");
    }
    assert_eq!(receipt.state(), InstallState::ProgramsCommitted);
    commit_program_removal(&mut receipt, ProgramComponent::InputMethod, &moved(ProgramComponent::InputMethod))
        .expect("already committed");
}

struct FailAt(ProgramSwitchAction, ProgramSwitchBoundary);

impl ProgramSwitchFaultInjector for FailAt {
    fn should_fail(&mut self, point: ProgramSwitchFaultPoint) -> bool {
        point.action() == self.0 && point.boundary() == self.1
    }
}

#[test]
fn probes_moves_and_faults_are_decided_exactly() {
    let facts = BundleFacts { is_directory: true, device_id: 10, inode: 7, owner_id: 501, mode: 0o40755 };
    assert!(matches!(probe_bundle(Some(facts), 501, 10), BundleProbe::Present(id) if id.inode() == 7 && id.mode() == 0o755));
    assert_eq!(probe_bundle(Some(facts), 501, 11), BundleProbe::Failed(ProgramSwitchErrorCode::CrossDevice));
    let writable = BundleFacts { mode: 0o40777, ..facts };
    assert_eq!(
        probe_bundle(Some(writable), 501, 10),
        BundleProbe::Failed(ProgramSwitchErrorCode::ArtifactIdentityChanged)
    );
    assert_eq!(probe_bundle(None, 501, 10), BundleProbe::Absent);
    let expected = fs(7);
    assert_eq!(
        plan_move(BundleProbe::Present(expected), BundleProbe::Present(expected), &expected)
            .err()
            .map(|e| e.code()),
        Some(ProgramSwitchErrorCode::ArtifactIdentityChanged)
    );
    assert_eq!(
        plan_move(BundleProbe::Failed(ProgramSwitchErrorCode::Io), BundleProbe::Absent, &expected)
            .err()
            .map(|e| e.code()),
        Some(ProgramSwitchErrorCode::Io)
    );
    let mut faults = FailAt(ProgramSwitchAction::CommitTarget, ProgramSwitchBoundary::AfterRename);
    assert!(check_fault(&mut faults, ProgramSwitchAction::CommitTarget, ProgramSwitchBoundary::BeforeRename).is_ok());
    assert_eq!(
        check_fault(&mut faults, ProgramSwitchAction::CommitTarget, ProgramSwitchBoundary::AfterRename)
            .err()
            .map(|e| e.code()),
        Some(ProgramSwitchErrorCode::FaultInjected)
    );
    assert!(fault_outcome(false).is_ok());
    assert_eq!(fault_outcome(true).err().map(|e| e.code()), Some(ProgramSwitchErrorCode::FaultInjected));
    let mut none = NoProgramSwitchFaults;
    assert!(check_fault(&mut none, ProgramSwitchAction::RestoreSource, ProgramSwitchBoundary::AfterRename).is_ok());
    let point = ProgramSwitchFaultPoint::new(ProgramSwitchAction::PreserveSource, ProgramSwitchBoundary::AfterSourceDirectorySync);
    assert_eq!(point.action(), ProgramSwitchAction::PreserveSource);
    assert_eq!(point.boundary(), ProgramSwitchBoundary::AfterSourceDirectorySync);
    assert_eq!(bundle_name(ProgramComponent::Manager), MANAGER_BUNDLE_NAME);
    assert_eq!(bundle_name(ProgramComponent::InputMethod), INPUT_METHOD_BUNDLE_NAME);
    assert_eq!(MANAGER_BUNDLE_NAME, "RadishLex Manager.app");
}

#[test]
fn store_persists_only_bound_successors() {
    let first = receipt(InstallOperationKind::FirstInstall);
    assert_eq!(plan_install_persist(&root(), None, false, &first), Ok(InstallPersistPlan::Write));
    let mut next = first.clone();
    next.advance(InstallState::Quiesced).expect("quiesced");
    assert_eq!(
        plan_install_persist(&root(), None, false, &next).err().map(|e| e.code()),
        Some(InstallFilesystemErrorCode::InvalidReceiptReplacement)
    );
    assert_eq!(plan_install_persist(&root(), Some(&first), false, &next), Ok(InstallPersistPlan::Write));
    assert_eq!(plan_install_persist(&root(), Some(&first), true, &first), Ok(InstallPersistPlan::Unchanged));
    let other_root = InstallRootIdentity::new(10, 21, 501, 0o700).expect("other root");
    assert_eq!(
        plan_install_persist(&other_root, None, false, &first).err().map(|e| e.code()),
        Some(InstallFilesystemErrorCode::IdentityChanged)
    );
    assert!(verify_current_receipt(Some(&first), &first.clone()).is_ok());
    assert_eq!(
        verify_current_receipt(Some(&first), &next).err().map(|e| e.code()),
        Some(InstallFilesystemErrorCode::InvalidReceiptReplacement)
    );
    assert_eq!(
        verify_current_receipt(None, &next).err().map(|e| e.code()),
        Some(InstallFilesystemErrorCode::InvalidReceipt)
    );
    assert!(validate_install_entry("receipt.json").is_ok());
    assert!(validate_install_entry("receipt.json.bak").is_err());
    assert!(verify_binding(&first, "00112233445566778899aabbccddeeff", 501).is_ok());
    assert_eq!(
        verify_binding(&first, "00112233445566778899aabbccddeeff", 502).err().map(|e| e.code()),
        Some(ProgramSwitchErrorCode::InvalidOperationState)
    );
}

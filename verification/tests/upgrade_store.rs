use radishlex::upgrade_coordinator::{
    checkpoints_of, coordinator_plan, require_quiescence, snapshot_space_after_settings,
    source_settings_bytes, CoordinatorPlan, UpgradeCoordinatorCheckpoint,
    UpgradeCoordinatorDisposition, UpgradeCoordinatorError,
};
use radishlex::upgrade_gate::{
    decide_startup_gate, plan_receipt_persist, validate_receipt_root, validate_state_entry,
    ReceiptPersistPlan, StartupGateDecision, StartupGateErrorCode, UpgradeRootFinding,
};
use radishlex::upgrade_receipt::{
    ProductRelease, UpgradeArtifactIdentity, UpgradeArtifactSlot, UpgradeFailureCode,
    UpgradeReceipt, UpgradeState,
};
use radishlex::upgrade_store::{
    apply_candidate_validation, apply_rollback_validation, switch_summary, validation_failure,
    UpgradeCandidateValidationDisposition, UpgradeCandidateValidationReport,
    UpgradeFilesystemErrorCode, UpgradeInputMethodValidationEvidence,
    UpgradeManagerValidationEvidence, UpgradeRollbackValidationDisposition,
    UpgradeRollbackValidationEvidence, UpgradeSnapshotSpaceBudget, UpgradeSwitchDisposition,
    MINIMUM_FREE_SPACE_RESERVE_BYTES, SNAPSHOT_WORKING_COPY_MULTIPLIER,
};
use radishlex::upgrade_switch::{
    check_private_data_file, classify_rollback_scene, classify_switch_scene, next_rollback_step,
    next_switch_step, validate_recorded_file, candidate_may_be_moved, DatabaseLayout, DatabaseMove, FileFacts,
    FileKind, RollbackScene, SwitchIdentities, SwitchScene,
};

#[test]
fn space_budget_is_conservative_and_rejects_shortfall_or_overflow() {
    let logical_bytes = 4 * 1024 * 1024;
    let required =
        logical_bytes * SNAPSHOT_WORKING_COPY_MULTIPLIER + MINIMUM_FREE_SPACE_RESERVE_BYTES;
    let budget = UpgradeSnapshotSpaceBudget::evaluate(logical_bytes, required)
        .expect("exact budget is accepted");
    assert_eq!(budget.logical_snapshot_bytes(), logical_bytes);
    assert_eq!(budget.required_available_bytes(), required);
    assert_eq!(budget.reported_available_bytes(), required);
    assert_eq!(
        UpgradeSnapshotSpaceBudget::evaluate(logical_bytes, required - 1)
            .expect_err("one-byte shortfall is rejected")
            .code(),
        UpgradeFilesystemErrorCode::InsufficientSpace
    );
    assert_eq!(
        UpgradeSnapshotSpaceBudget::evaluate(u64::MAX, u64::MAX)
            .expect_err("overflow is rejected")
            .code(),
        UpgradeFilesystemErrorCode::InsufficientSpace
    );
}

#[test]
fn space_budget_reserve_is_sixty_four_mebibytes() {
    assert_eq!(MINIMUM_FREE_SPACE_RESERVE_BYTES, 64 * 1024 * 1024);
    let budget = UpgradeSnapshotSpaceBudget::evaluate(0, 64 * 1024 * 1024).expect("empty");
    assert_eq!(budget.required_available_bytes(), 64 * 1024 * 1024);
    let near_limit = (u64::MAX - MINIMUM_FREE_SPACE_RESERVE_BYTES) / 3 + 1;
    assert!(UpgradeSnapshotSpaceBudget::evaluate(near_limit, u64::MAX).is_err());
}

fn data_root() -> UpgradeArtifactIdentity {
    UpgradeArtifactIdentity::private_directory(UpgradeArtifactSlot::DataRoot, 10, 20, 501, 7)
        .expect("data root identity")
}

fn private_file(slot: UpgradeArtifactSlot, inode: u64) -> UpgradeArtifactIdentity {
    UpgradeArtifactIdentity::private_file(slot, 10, inode, 501, 100).expect("private file identity")
}

fn receipt(artifacts: Vec<UpgradeArtifactIdentity>) -> UpgradeReceipt {
    UpgradeReceipt::new(
        "00112233445566778899aabbccddeeff".to_string(),
        None,
        ProductRelease::new("0.0.9".to_string(), 34).expect("source release"),
        ProductRelease::new("0.1.0".to_string(), 35).expect("target release"),
        Some(8),
        9,
        artifacts,
    )
    .expect("receipt")
}

fn migrated_receipt() -> UpgradeReceipt {
    let mut receipt = receipt(vec![
        data_root(),
        private_file(UpgradeArtifactSlot::SourceDatabase, 21),
    ]);
    receipt.advance(UpgradeState::Quiesced).expect("quiesced");
    receipt
        .record_artifact(private_file(UpgradeArtifactSlot::SnapshotDatabase, 22))
        .expect("snapshot");
    receipt.advance(UpgradeState::SnapshotReady).expect("snapshot ready");
    receipt
        .record_artifact(private_file(UpgradeArtifactSlot::CandidateDatabase, 23))
        .expect("candidate");
    receipt.advance(UpgradeState::CandidateMigrated).expect("migrated");
    receipt
}

fn manager(schema: i64) -> UpgradeManagerValidationEvidence {
    UpgradeManagerValidationEvidence::new(1, schema, 1, 1)
}

fn input_method(schema: i64) -> UpgradeInputMethodValidationEvidence {
    UpgradeInputMethodValidationEvidence::new(1, schema, 1, 1)
}

#[test]
fn validation_failures_blame_the_endpoint_with_invalid_evidence() {
    assert_eq!(
        validation_failure(UpgradeCandidateValidationReport::passed(manager(9), input_method(9)), 9),
        None
    );
    assert_eq!(
        validation_failure(UpgradeCandidateValidationReport::passed(manager(8), input_method(9)), 9),
        Some(UpgradeFailureCode::ManagerValidationFailed)
    );
    assert_eq!(
        validation_failure(UpgradeCandidateValidationReport::passed(manager(9), input_method(8)), 9),
        Some(UpgradeFailureCode::InputMethodValidationFailed)
    );
    assert_eq!(
        validation_failure(UpgradeCandidateValidationReport::manager_failed(), 9),
        Some(UpgradeFailureCode::ManagerValidationFailed)
    );
    assert_eq!(
        validation_failure(UpgradeCandidateValidationReport::input_method_failed(manager(9)), 9),
        Some(UpgradeFailureCode::InputMethodValidationFailed)
    );
    assert_eq!(
        validation_failure(
            UpgradeCandidateValidationReport::input_method_failed(UpgradeManagerValidationEvidence::new(2, 9, 1, 1)),
            9
        ),
        Some(UpgradeFailureCode::ManagerValidationFailed)
    );
}

#[test]
fn candidate_validation_verifies_or_aborts_preserved() {
    let mut verified = migrated_receipt();
    let summary = apply_candidate_validation(&mut verified, None).expect("verified");
    assert_eq!(summary.disposition(), UpgradeCandidateValidationDisposition::CandidateVerified);
    assert_eq!(verified.state(), UpgradeState::CandidateVerified);

    let mut aborted = migrated_receipt();
    let summary = apply_candidate_validation(
        &mut aborted,
        Some(UpgradeFailureCode::InputMethodValidationFailed),
    )
    .expect("aborted");
    assert_eq!(summary.disposition(), UpgradeCandidateValidationDisposition::AbortedPreserved);
    assert_eq!(summary.failure_code(), Some(UpgradeFailureCode::InputMethodValidationFailed));
    assert_eq!(aborted.state(), UpgradeState::AbortedPreserved);
    assert_eq!(aborted.failure_after_state(), Some(UpgradeState::CandidateMigrated));
    assert!(!aborted.manual_recovery_required());
}

fn switched_receipt() -> UpgradeReceipt {
    let mut receipt = migrated_receipt();
    receipt.advance(UpgradeState::CandidateVerified).expect("verified");
    receipt
        .record_artifact(private_file(UpgradeArtifactSlot::BackupDatabase, 21))
        .expect("backup");
    receipt.advance(UpgradeState::SwitchPrepared).expect("prepared");
    receipt.advance(UpgradeState::Switched).expect("switched");
    receipt
}

#[test]
fn rollback_validation_needs_evidence_for_the_source_schema() {
    let mut receipt = switched_receipt();
    let evidence = UpgradeRollbackValidationEvidence::new(1, 8, 1, 1);
    assert_eq!(
        apply_rollback_validation(&mut receipt, evidence).err().map(|e| e.code()),
        Some(UpgradeFilesystemErrorCode::InvalidSwitchState)
    );
    receipt
        .require_rollback(UpgradeFailureCode::PostSwitchValidationFailed)
        .expect("rollback required");
    let wrong_schema = UpgradeRollbackValidationEvidence::new(1, 9, 1, 1);
    assert!(apply_rollback_validation(&mut receipt, wrong_schema).is_err());
    assert_eq!(receipt.state(), UpgradeState::RollbackRequired);
    let summary = apply_rollback_validation(&mut receipt, evidence).expect("rolled back");
    assert_eq!(summary.disposition(), UpgradeRollbackValidationDisposition::RolledBack);
    assert_eq!(receipt.state(), UpgradeState::RolledBack);
    let again = apply_rollback_validation(&mut receipt, evidence).expect("idempotent");
    assert_eq!(again.disposition(), UpgradeRollbackValidationDisposition::AlreadyRolledBack);

    let summary = switch_summary(&receipt, UpgradeSwitchDisposition::AlreadySwitched)
        .expect("switch summary");
    assert_eq!(summary.active_identity().inode(), 23);
    assert_eq!(summary.backup_identity().inode(), 21);
}

#[test]
fn startup_gate_blocks_open_upgrades_and_allows_terminal_ones() {
    let blocked = decide_startup_gate(&UpgradeRootFinding::ReceiptLoaded(UpgradeState::Switched));
    assert_eq!(blocked.decision(), StartupGateDecision::BlockedUpgradeInProgress);
    assert_eq!(blocked.error_code(), StartupGateErrorCode::UpgradeInProgress);
    assert_eq!(blocked.receipt_state(), Some(UpgradeState::Switched));
    assert!(!blocked.is_allowed());
    let done = decide_startup_gate(&UpgradeRootFinding::ReceiptLoaded(UpgradeState::RolledBack));
    assert!(done.is_allowed());
    assert_eq!(done.decision(), StartupGateDecision::AllowedTerminalReceipt);
    assert_eq!(
        decide_startup_gate(&UpgradeRootFinding::DataRootAbsent).decision(),
        StartupGateDecision::AllowedFirstLaunch
    );
    assert_eq!(
        decide_startup_gate(&UpgradeRootFinding::GuardPresent).error_code(),
        StartupGateErrorCode::ActiveGuard
    );
    assert_eq!(
        decide_startup_gate(&UpgradeRootFinding::StoreFailed(
            UpgradeFilesystemErrorCode::InterruptedSnapshot
        ))
        .error_code(),
        StartupGateErrorCode::InterruptedArtifact
    );
    assert_eq!(
        decide_startup_gate(&UpgradeRootFinding::StoreFailed(
            UpgradeFilesystemErrorCode::InvalidReceiptReplacement
        ))
        .error_code(),
        StartupGateErrorCode::InvalidReceipt
    );
    assert_eq!(
        decide_startup_gate(&UpgradeRootFinding::StoreFailed(UpgradeFilesystemErrorCode::SwitchFailed))
            .error_code(),
        StartupGateErrorCode::Io
    );
}

#[test]
fn store_writes_only_accepted_successors() {
    let root = data_root();
    let first = receipt(vec![data_root(), private_file(UpgradeArtifactSlot::SourceDatabase, 21)]);
    assert_eq!(
        plan_receipt_persist(&root, None, false, &first),
        Ok(ReceiptPersistPlan::Write)
    );
    let mut next = first.clone();
    next.advance(UpgradeState::Quiesced).expect("quiesced");
    assert_eq!(
        plan_receipt_persist(&root, None, false, &next).err().map(|e| e.code()),
        Some(UpgradeFilesystemErrorCode::InvalidReceiptReplacement)
    );
    assert_eq!(
        plan_receipt_persist(&root, Some(&first), false, &next),
        Ok(ReceiptPersistPlan::Write)
    );
    assert_eq!(
        plan_receipt_persist(&root, Some(&first), true, &first),
        Ok(ReceiptPersistPlan::Unchanged)
    );
    assert_eq!(
        plan_receipt_persist(&root, Some(&next), false, &first).err().map(|e| e.code()),
        Some(UpgradeFilesystemErrorCode::InvalidReceiptReplacement)
    );
    let other_root =
        UpgradeArtifactIdentity::private_directory(UpgradeArtifactSlot::DataRoot, 10, 99, 501, 7)
            .expect("other root");
    assert!(validate_receipt_root(&first, &root).is_ok());
    assert_eq!(
        plan_receipt_persist(&other_root, None, false, &first).err().map(|e| e.code()),
        Some(UpgradeFilesystemErrorCode::IdentityChanged)
    );
}

#[test]
fn state_directory_accepts_only_store_files() {
    assert!(validate_state_entry("receipt.json").is_ok());
    assert!(validate_state_entry("source-settings.json.tmp").is_ok());
    assert_eq!(
        validate_state_entry("notes.txt").err().map(|e| e.code()),
        Some(UpgradeFilesystemErrorCode::UnexpectedStateObject)
    );
}

fn facts(identity: &UpgradeArtifactIdentity) -> FileFacts {
    FileFacts {
        kind: FileKind::File,
        device_id: identity.device_id(),
        inode: identity.inode(),
        owner_id: identity.owner_id(),
        mode: 0o100600,
        link_count: identity.link_count(),
        byte_len: identity.byte_len(),
    }
}

#[test]
fn interrupted_switch_and_rollback_resume_from_the_files_found() {
    let ids = SwitchIdentities {
        source: private_file(UpgradeArtifactSlot::SourceDatabase, 21),
        candidate: private_file(UpgradeArtifactSlot::CandidateDatabase, 23),
        backup: private_file(UpgradeArtifactSlot::BackupDatabase, 21),
    };
    let source = facts(&ids.source);
    let candidate = facts(&ids.candidate);
    let unmoved = DatabaseLayout { active: Some(source), candidate: Some(candidate), backup: None };
    let backup_moved = DatabaseLayout { active: None, candidate: Some(candidate), backup: Some(source) };
    let switched = DatabaseLayout { active: Some(candidate), candidate: None, backup: Some(source) };
    assert_eq!(classify_switch_scene(&ids, &unmoved), Ok(SwitchScene::Unmoved));
    assert_eq!(classify_switch_scene(&ids, &backup_moved), Ok(SwitchScene::BackupMoved));
    assert_eq!(classify_switch_scene(&ids, &switched), Ok(SwitchScene::CandidateMoved));
    assert_eq!(next_switch_step(SwitchScene::Unmoved), Some(DatabaseMove::ActiveToBackup));
    assert_eq!(next_switch_step(SwitchScene::BackupMoved), Some(DatabaseMove::CandidateToActive));
    assert_eq!(next_switch_step(SwitchScene::CandidateMoved), None);
    assert_eq!(classify_rollback_scene(&ids, &switched), Ok(RollbackScene::Switched));
    assert_eq!(classify_rollback_scene(&ids, &backup_moved), Ok(RollbackScene::CandidateReturned));
    assert_eq!(classify_rollback_scene(&ids, &unmoved), Ok(RollbackScene::SourceRestored));
    assert_eq!(next_rollback_step(RollbackScene::Switched), Some(DatabaseMove::ActiveToCandidate));
    assert_eq!(next_rollback_step(RollbackScene::SourceRestored), None);
    let mut drifted = candidate;
    drifted.byte_len += 1;
    let drifted_layout = DatabaseLayout { active: Some(drifted), candidate: None, backup: Some(source) };
    assert_eq!(
        classify_switch_scene(&ids, &drifted_layout).err().map(|e| e.code()),
        Some(UpgradeFilesystemErrorCode::InvalidSwitchState)
    );
    let nothing = DatabaseLayout { active: None, candidate: None, backup: None };
    assert!(classify_rollback_scene(&ids, &nothing).is_err());
}

#[test]
fn private_files_and_snapshot_presence_are_checked() {
    let file = private_file(UpgradeArtifactSlot::SnapshotDatabase, 22);
    let found = facts(&file);
    assert!(check_private_data_file(&found, 501, UpgradeFilesystemErrorCode::IdentityChanged).is_ok());
    let mut shared = found;
    shared.mode = 0o100644;
    assert_eq!(
        check_private_data_file(&shared, 501, UpgradeFilesystemErrorCode::IdentityChanged)
            .err()
            .map(|e| e.code()),
        Some(UpgradeFilesystemErrorCode::IdentityChanged)
    );
    let snapshot = |found, recorded| {
        validate_recorded_file(
            false,
            found,
            501,
            recorded,
            UpgradeFilesystemErrorCode::InterruptedSnapshot,
            false,
            false,
        )
    };
    assert!(snapshot(None, None).is_ok());
    assert!(snapshot(Some(found), Some(&file)).is_ok());
    assert_eq!(
        snapshot(Some(found), None).err().map(|e| e.code()),
        Some(UpgradeFilesystemErrorCode::InterruptedSnapshot)
    );
    assert_eq!(
        snapshot(None, Some(&file)).err().map(|e| e.code()),
        Some(UpgradeFilesystemErrorCode::IdentityChanged)
    );
    assert_eq!(
        snapshot(Some(shared), Some(&file)).err().map(|e| e.code()),
        Some(UpgradeFilesystemErrorCode::IdentityChanged)
    );
    assert_eq!(
        validate_recorded_file(
            true,
            None,
            501,
            None,
            UpgradeFilesystemErrorCode::InterruptedCandidate,
            false,
            false
        )
        .err()
        .map(|e| e.code()),
        Some(UpgradeFilesystemErrorCode::InterruptedCandidate)
    );
    assert!(candidate_may_be_moved(UpgradeState::Switched));
    assert!(!candidate_may_be_moved(UpgradeState::CandidateVerified));
    let candidate = private_file(UpgradeArtifactSlot::CandidateDatabase, 23);
    assert!(validate_recorded_file(
        false,
        None,
        501,
        Some(&candidate),
        UpgradeFilesystemErrorCode::InterruptedCandidate,
        candidate_may_be_moved(UpgradeState::Switched),
        false
    )
    .is_ok());
    assert_eq!(
        validate_recorded_file(
            false,
            Some(facts(&candidate)),
            501,
            Some(&candidate),
            UpgradeFilesystemErrorCode::InterruptedCandidate,
            false,
            true
        )
        .err()
        .map(|e| e.code()),
        Some(UpgradeFilesystemErrorCode::CandidateMigrationFailed)
    );
}

#[test]
fn coordinator_plans_follow_the_persisted_state() {
    assert_eq!(coordinator_plan(UpgradeState::Preflighted, false), CoordinatorPlan::Quiesce);
    assert_eq!(
        coordinator_plan(UpgradeState::Quiesced, true),
        CoordinatorPlan::BackupSettingsThenSnapshot
    );
    assert_eq!(coordinator_plan(UpgradeState::Quiesced, false), CoordinatorPlan::Snapshot);
    assert_eq!(coordinator_plan(UpgradeState::SwitchPrepared, false), CoordinatorPlan::Switch);
    assert_eq!(
        coordinator_plan(UpgradeState::AbortedPreserved, false),
        CoordinatorPlan::Finish(UpgradeCoordinatorDisposition::AbortedPreserved)
    );
    assert_eq!(
        checkpoints_of(CoordinatorPlan::RestoreAndValidateSource),
        vec![
            UpgradeCoordinatorCheckpoint::BeforeRollbackRestore,
            UpgradeCoordinatorCheckpoint::BeforeSourceValidation,
            UpgradeCoordinatorCheckpoint::AfterSourceValidation,
        ]
    );
    assert!(checkpoints_of(CoordinatorPlan::Finish(UpgradeCoordinatorDisposition::Completed)).is_empty());
    assert_eq!(
        require_quiescence(false, UpgradeCoordinatorCheckpoint::BeforeSwitch),
        Err(UpgradeCoordinatorError::QuiescenceNotProven(
            UpgradeCoordinatorCheckpoint::BeforeSwitch
        ))
    );
    assert_eq!(snapshot_space_after_settings(100, Some(40)), Ok(60));
    assert_eq!(
        snapshot_space_after_settings(10, Some(40)),
        Err(UpgradeCoordinatorError::Filesystem(UpgradeFilesystemErrorCode::InsufficientSpace))
    );
    let with_settings = receipt(vec![
        data_root(),
        private_file(UpgradeArtifactSlot::SourceDatabase, 21),
        private_file(UpgradeArtifactSlot::SourceSettings, 30),
    ]);
    assert_eq!(source_settings_bytes(&with_settings), Some(100));
}

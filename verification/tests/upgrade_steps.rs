use radishlex::upgrade_receipt::{
    ProductRelease, UpgradeArtifactIdentity, UpgradeArtifactSlot, UpgradeReceipt, UpgradeState,
};
use radishlex::upgrade_steps::{
    check_candidate_start, check_settings_start, check_snapshot_start, check_staged_copy,
    CandidateStart,
};
use radishlex::upgrade_store::{
    UpgradeFilesystemErrorCode, UpgradeRollbackRestoreDisposition, UpgradeSwitchDisposition,
};
use radishlex::upgrade_switch::{
    plan_backup_record, plan_switch_start, restore_disposition, validate_switch_state,
    DatabaseLayout, FileFacts, FileKind, RollbackScene, SwitchStart,
};

const DEVICE: u64 = 10;
const OWNER: u32 = 501;

fn data_root() -> UpgradeArtifactIdentity {
    UpgradeArtifactIdentity::private_directory(UpgradeArtifactSlot::DataRoot, DEVICE, 20, OWNER, 7)
        .expect("data root identity")
}

fn private_file(slot: UpgradeArtifactSlot, inode: u64) -> UpgradeArtifactIdentity {
    UpgradeArtifactIdentity::private_file(slot, DEVICE, inode, OWNER, 100)
        .expect("private file identity")
}

fn facts(inode: u64) -> FileFacts {
    FileFacts {
        kind: FileKind::File,
        device_id: DEVICE,
        inode,
        owner_id: OWNER,
        mode: 0o100600,
        link_count: 1,
        byte_len: 100,
    }
}

fn base_receipt(artifacts: Vec<UpgradeArtifactIdentity>) -> UpgradeReceipt {
    UpgradeReceipt::new(
        "00112233445566778899aabbccddeeff".to_string(),
        None,
        ProductRelease::new("0.0.9".to_string(), 34).expect("source release"),
        ProductRelease::new("0.1.0".to_string(), 35).expect("target release"),
        Some(8),
        9,
        artifacts,
    )
    .expect("receipt")
}

fn quiesced() -> UpgradeReceipt {
    let mut receipt = base_receipt(vec![
        data_root(),
        private_file(UpgradeArtifactSlot::SourceDatabase, 21),
        private_file(UpgradeArtifactSlot::SourceSettings, 31),
    ]);
    receipt.advance(UpgradeState::Quiesced).expect("quiesced");
    receipt
}

fn settings_backed_up() -> UpgradeReceipt {
    let mut receipt = quiesced();
    receipt
        .record_artifact(private_file(UpgradeArtifactSlot::BackupSettings, 32))
        .expect("settings backup");
    receipt
}

fn snapshot_ready() -> UpgradeReceipt {
    let mut receipt = settings_backed_up();
    receipt
        .record_artifact(private_file(UpgradeArtifactSlot::SnapshotDatabase, 22))
        .expect("snapshot");
    receipt.advance(UpgradeState::SnapshotReady).expect("snapshot ready");
    receipt
}

fn candidate_verified() -> UpgradeReceipt {
    let mut receipt = snapshot_ready();
    receipt
        .record_artifact(private_file(UpgradeArtifactSlot::CandidateDatabase, 23))
        .expect("candidate");
    receipt.advance(UpgradeState::CandidateMigrated).expect("migrated");
    receipt.advance(UpgradeState::CandidateVerified).expect("verified");
    receipt
}

fn layout(active: Option<u64>, candidate: Option<u64>, backup: Option<u64>) -> DatabaseLayout {
    DatabaseLayout {
        active: active.map(facts),
        candidate: candidate.map(facts),
        backup: backup.map(facts),
    }
}

fn switch_code(
    receipt: Option<&UpgradeReceipt>,
    layout: &DatabaseLayout,
    sidecars: bool,
) -> Option<UpgradeFilesystemErrorCode> {
    validate_switch_state(receipt, DEVICE, DEVICE, layout, OWNER, sidecars)
        .err()
        .map(|error| error.code())
}

#[test]
fn switch_state_without_receipt_refuses_a_left_over_backup() {
    assert_eq!(switch_code(None, &layout(Some(21), None, None), false), None);
    assert_eq!(
        switch_code(None, &layout(Some(21), None, Some(21)), false),
        Some(UpgradeFilesystemErrorCode::InterruptedSwitch)
    );
    let mut foreign = facts(21);
    foreign.owner_id = 0;
    let unsafe_backup = DatabaseLayout { active: None, candidate: None, backup: Some(foreign) };
    assert_eq!(
        switch_code(None, &unsafe_backup, false),
        Some(UpgradeFilesystemErrorCode::IdentityChanged)
    );
}

#[test]
fn verified_candidate_requires_both_files_unmoved() {
    let receipt = candidate_verified();
    assert_eq!(switch_code(Some(&receipt), &layout(Some(21), Some(23), None), false), None);
    assert_eq!(
        switch_code(Some(&receipt), &layout(Some(21), Some(23), Some(21)), false),
        Some(UpgradeFilesystemErrorCode::InvalidSwitchState)
    );
    assert_eq!(
        switch_code(Some(&receipt), &layout(None, Some(23), None), false),
        Some(UpgradeFilesystemErrorCode::IdentityChanged)
    );
    assert_eq!(
        switch_code(Some(&receipt), &layout(Some(23), Some(21), None), false),
        Some(UpgradeFilesystemErrorCode::InvalidSwitchState)
    );
}

#[test]
fn prepared_switch_accepts_each_scene_and_switched_only_the_final_one() {
    let mut receipt = candidate_verified();
    let backup = plan_backup_record(&receipt, DEVICE, DEVICE, Some(facts(21)), None, OWNER, false)
        .expect("backup is planned")
        .expect("backup is new");
    assert_eq!(backup.slot(), UpgradeArtifactSlot::BackupDatabase);
    assert_eq!(backup.inode(), 21);
    receipt.record_artifact(backup).expect("backup recorded");
    assert!(plan_backup_record(&receipt, DEVICE, DEVICE, Some(facts(21)), None, OWNER, false)
        .expect("recorded backup is accepted")
        .is_none());
    receipt.advance(UpgradeState::SwitchPrepared).expect("prepared");
    assert_eq!(switch_code(Some(&receipt), &layout(Some(21), Some(23), None), false), None);
    assert_eq!(switch_code(Some(&receipt), &layout(None, Some(23), Some(21)), false), None);
    assert_eq!(switch_code(Some(&receipt), &layout(Some(23), None, Some(21)), false), None);
    assert_eq!(
        switch_code(Some(&receipt), &layout(Some(21), Some(23), None), true),
        Some(UpgradeFilesystemErrorCode::InterruptedSwitch)
    );
    assert_eq!(
        switch_code(Some(&receipt), &layout(None, None, Some(21)), false),
        Some(UpgradeFilesystemErrorCode::InvalidSwitchState)
    );
    receipt.advance(UpgradeState::Switched).expect("switched");
    assert_eq!(switch_code(Some(&receipt), &layout(Some(23), None, Some(21)), false), None);
    assert_eq!(
        switch_code(Some(&receipt), &layout(Some(21), Some(23), None), false),
        Some(UpgradeFilesystemErrorCode::InvalidSwitchState)
    );
}

#[test]
fn backup_record_refuses_a_changed_source_or_left_over_files() {
    let receipt = candidate_verified();
    let code = |active: Option<FileFacts>, backup: Option<FileFacts>, sidecars: bool| {
        plan_backup_record(&receipt, DEVICE, DEVICE, active, backup, OWNER, sidecars)
            .err()
            .map(|error| error.code())
    };
    assert_eq!(code(Some(facts(99)), None, false), Some(UpgradeFilesystemErrorCode::IdentityChanged));
    assert_eq!(code(None, None, false), Some(UpgradeFilesystemErrorCode::IdentityChanged));
    assert_eq!(code(Some(facts(21)), None, true), Some(UpgradeFilesystemErrorCode::InterruptedSwitch));
    assert_eq!(
        code(Some(facts(21)), Some(facts(40)), false),
        Some(UpgradeFilesystemErrorCode::InterruptedSwitch)
    );
    assert_eq!(
        plan_backup_record(&receipt, DEVICE, DEVICE + 1, Some(facts(21)), None, OWNER, false)
            .err()
            .map(|error| error.code()),
        Some(UpgradeFilesystemErrorCode::InvalidSwitchState)
    );
}

#[test]
fn snapshot_starts_only_from_the_stored_quiesced_receipt() {
    let receipt = settings_backed_up();
    let stored = receipt.clone();
    let code = |stored: Option<&UpgradeReceipt>, staged: bool, present: bool, source: Option<FileFacts>| {
        check_snapshot_start(&receipt, stored, staged, present, source, OWNER)
            .err()
            .map(|error| error.code())
    };
    assert_eq!(code(Some(&stored), false, false, Some(facts(21))), None);
    assert_eq!(code(None, false, false, Some(facts(21))), Some(UpgradeFilesystemErrorCode::InvalidSnapshotState));
    assert_eq!(code(Some(&stored), true, false, Some(facts(21))), Some(UpgradeFilesystemErrorCode::InterruptedSnapshot));
    assert_eq!(code(Some(&stored), false, true, Some(facts(21))), Some(UpgradeFilesystemErrorCode::InterruptedSnapshot));
    assert_eq!(code(Some(&stored), false, false, Some(facts(22))), Some(UpgradeFilesystemErrorCode::IdentityChanged));
    assert_eq!(code(Some(&stored), false, false, None), Some(UpgradeFilesystemErrorCode::IdentityChanged));
    let ready = snapshot_ready();
    assert_eq!(
        check_snapshot_start(&ready, Some(&ready), false, false, Some(facts(21)), OWNER)
            .err()
            .map(|error| error.code()),
        Some(UpgradeFilesystemErrorCode::InvalidSnapshotState)
    );
}

#[test]
fn candidate_creates_from_the_snapshot_or_resumes_a_recorded_one() {
    let ready = snapshot_ready();
    assert_eq!(
        check_candidate_start(&ready, Some(&ready), false, false, Some(facts(22)), OWNER).ok(),
        Some(CandidateStart::Create)
    );
    assert_eq!(
        check_candidate_start(&ready, Some(&ready), false, true, Some(facts(22)), OWNER)
            .err()
            .map(|error| error.code()),
        Some(UpgradeFilesystemErrorCode::InterruptedCandidate)
    );
    assert_eq!(
        check_candidate_start(&ready, Some(&ready), false, false, Some(facts(21)), OWNER)
            .err()
            .map(|error| error.code()),
        Some(UpgradeFilesystemErrorCode::IdentityChanged)
    );
    let mut recorded = snapshot_ready();
    recorded
        .record_artifact(private_file(UpgradeArtifactSlot::CandidateDatabase, 23))
        .expect("candidate");
    assert_eq!(
        check_candidate_start(&recorded, Some(&recorded), true, true, None, OWNER).ok(),
        Some(CandidateStart::Resume)
    );
    assert_eq!(
        check_candidate_start(&recorded, Some(&ready), false, false, None, OWNER)
            .err()
            .map(|error| error.code()),
        Some(UpgradeFilesystemErrorCode::InvalidCandidateState)
    );
}

#[test]
fn settings_backup_starts_before_any_data_copy() {
    let receipt = quiesced();
    assert!(check_settings_start(&receipt, Some(&receipt), false, false, Some(facts(31)), OWNER).is_ok());
    assert_eq!(
        check_settings_start(&receipt, Some(&receipt), false, true, Some(facts(31)), OWNER)
            .err()
            .map(|error| error.code()),
        Some(UpgradeFilesystemErrorCode::InterruptedSettingsBackup)
    );
    assert_eq!(
        check_settings_start(&receipt, Some(&receipt), false, false, Some(facts(21)), OWNER)
            .err()
            .map(|error| error.code()),
        Some(UpgradeFilesystemErrorCode::IdentityChanged)
    );
    let ready = snapshot_ready();
    assert_eq!(
        check_settings_start(&ready, Some(&ready), false, false, Some(facts(31)), OWNER)
            .err()
            .map(|error| error.code()),
        Some(UpgradeFilesystemErrorCode::InvalidSettingsState)
    );
}

#[test]
fn staged_copy_must_match_the_unchanged_source() {
    let created = FileFacts { byte_len: 0, ..facts(50) };
    let source = facts(31);
    assert!(check_staged_copy(created, 100, Some(facts(50)), source, Some(source), OWNER).is_ok());
    assert!(check_staged_copy(created, 99, Some(facts(50)), source, Some(source), OWNER).is_err());
    assert!(check_staged_copy(created, 100, Some(facts(51)), source, Some(source), OWNER).is_err());
    let grown = FileFacts { byte_len: 101, ..source };
    assert_eq!(
        check_staged_copy(created, 100, Some(facts(50)), source, Some(grown), OWNER)
            .err()
            .map(|error| error.code()),
        Some(UpgradeFilesystemErrorCode::IdentityChanged)
    );
    assert!(check_staged_copy(created, 100, None, source, Some(source), OWNER).is_err());
}

#[test]
fn snapshot_cannot_advance_while_recorded_settings_lack_a_backup() {
    let receipt = quiesced();
    assert_eq!(
        check_snapshot_start(&receipt, Some(&receipt), false, false, Some(facts(21)), OWNER)
            .expect_err("snapshot without settings backup is rejected")
            .code(),
        UpgradeFilesystemErrorCode::InvalidSnapshotState
    );
}

#[test]
fn settings_evidence_allows_snapshot_to_advance_to_snapshot_ready() {
    let mut receipt = quiesced();
    assert!(check_settings_start(&receipt, Some(&receipt), false, false, Some(facts(31)), OWNER).is_ok());
    receipt
        .record_artifact(private_file(UpgradeArtifactSlot::BackupSettings, 32))
        .expect("settings backup succeeds");
    check_snapshot_start(&receipt, Some(&receipt), false, false, Some(facts(21)), OWNER)
        .expect("snapshot starts after settings evidence");
    receipt
        .record_artifact(private_file(UpgradeArtifactSlot::SnapshotDatabase, 22))
        .expect("snapshot recorded");
    receipt.advance(UpgradeState::SnapshotReady).expect("snapshot ready");
    assert_eq!(receipt.state(), UpgradeState::SnapshotReady);
    assert!(receipt.artifacts().iter().any(|artifact| artifact.slot() == UpgradeArtifactSlot::BackupSettings));
    assert!(receipt.artifacts().iter().any(|artifact| artifact.slot() == UpgradeArtifactSlot::SnapshotDatabase));
}

#[test]
fn switch_start_and_restore_disposition_follow_the_stored_state() {
    assert_eq!(
        plan_switch_start(UpgradeState::Switched).ok(),
        Some(SwitchStart::Report(UpgradeSwitchDisposition::AlreadySwitched))
    );
    assert_eq!(plan_switch_start(UpgradeState::CandidateVerified).ok(), Some(SwitchStart::Prepare));
    assert_eq!(plan_switch_start(UpgradeState::SwitchPrepared).ok(), Some(SwitchStart::Resume));
    assert_eq!(
        plan_switch_start(UpgradeState::CandidateMigrated).err().map(|error| error.code()),
        Some(UpgradeFilesystemErrorCode::InvalidSwitchState)
    );
    assert_eq!(
        restore_disposition(RollbackScene::SourceRestored),
        UpgradeRollbackRestoreDisposition::AlreadyRestoredAwaitingValidation
    );
    assert_eq!(
        restore_disposition(RollbackScene::Switched),
        UpgradeRollbackRestoreDisposition::RestoredAwaitingValidation
    );
    assert_eq!(
        restore_disposition(RollbackScene::CandidateReturned),
        UpgradeRollbackRestoreDisposition::RestoredAwaitingValidation
    );
}

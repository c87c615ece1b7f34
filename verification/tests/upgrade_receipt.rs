use radishlex::upgrade_receipt::{
    check_upgrade_receipt_frame, ProductRelease, UpgradeArtifactIdentity, UpgradeArtifactSlot,
    UpgradeFailureCode, UpgradeReceipt, UpgradeReceiptError, UpgradeReceiptField,
    UpgradeReceiptReason, UpgradeState, MAX_UPGRADE_RECEIPT_BYTES,
};

fn data_root() -> UpgradeArtifactIdentity {
    UpgradeArtifactIdentity::private_directory(UpgradeArtifactSlot::DataRoot, 10, 20, 501, 7)
        .expect("data root identity")
}

fn private_file(slot: UpgradeArtifactSlot, inode: u64) -> UpgradeArtifactIdentity {
    UpgradeArtifactIdentity::private_file(slot, 10, inode, 501, 100).expect("private file identity")
}

fn receipt() -> UpgradeReceipt {
    UpgradeReceipt::new(
        "00112233445566778899aabbccddeeff".to_string(),
        None,
        ProductRelease::new("0.0.9".to_string(), 34).expect("source release"),
        ProductRelease::new("0.1.0".to_string(), 35).expect("target release"),
        Some(8),
        9,
        vec![
            data_root(),
            private_file(UpgradeArtifactSlot::SourceDatabase, 21),
        ],
    )
    .expect("receipt")
}

fn switched_receipt() -> UpgradeReceipt {
    let mut receipt = receipt();
    receipt
        .advance(UpgradeState::Quiesced)
        .expect("state advances");
    receipt
        .record_artifact(private_file(UpgradeArtifactSlot::SnapshotDatabase, 22))
        .expect("snapshot identity is recorded");
    receipt
        .advance(UpgradeState::SnapshotReady)
        .expect("state advances");
    receipt
        .record_artifact(private_file(UpgradeArtifactSlot::CandidateDatabase, 23))
        .expect("candidate identity is recorded");
    receipt
        .advance(UpgradeState::CandidateMigrated)
        .expect("state advances");
    receipt
        .advance(UpgradeState::CandidateVerified)
        .expect("state advances");
    receipt
        .record_artifact(private_file(UpgradeArtifactSlot::BackupDatabase, 24))
        .expect("backup identity is recorded");
    receipt
        .advance(UpgradeState::SwitchPrepared)
        .expect("state advances");
    receipt
        .advance(UpgradeState::Switched)
        .expect("state advances");
    receipt
}

#[test]
fn normal_states_advance_in_order_and_terminal_state_is_closed() {
    let mut receipt = receipt();
    receipt
        .advance(UpgradeState::Quiesced)
        .expect("state advances");
    receipt
        .record_artifact(private_file(UpgradeArtifactSlot::SnapshotDatabase, 22))
        .expect("snapshot identity is recorded");
    receipt
        .advance(UpgradeState::SnapshotReady)
        .expect("state advances");
    receipt
        .record_artifact(private_file(UpgradeArtifactSlot::CandidateDatabase, 23))
        .expect("candidate identity is recorded");
    receipt
        .advance(UpgradeState::CandidateMigrated)
        .expect("state advances");
    receipt
        .advance(UpgradeState::CandidateVerified)
        .expect("state advances");
    receipt
        .record_artifact(private_file(UpgradeArtifactSlot::BackupDatabase, 24))
        .expect("backup identity is recorded");
    for state in [
        UpgradeState::SwitchPrepared,
        UpgradeState::Switched,
        UpgradeState::PostSwitchVerified,
        UpgradeState::Completed,
    ] {
        receipt.advance(state).expect("state advances");
    }

    assert_eq!(receipt.state(), UpgradeState::Completed);
    assert!(receipt.advance(UpgradeState::Quiesced).is_err());
    assert!(receipt.record_artifact(data_root()).is_err());
}

#[test]
fn states_cannot_skip_required_evidence() {
    let mut receipt = receipt();

    assert!(receipt.advance(UpgradeState::SnapshotReady).is_err());
    assert_eq!(receipt.state(), UpgradeState::Preflighted);
    receipt
        .advance(UpgradeState::Quiesced)
        .expect("quiesced state is allowed");
    assert!(receipt.advance(UpgradeState::SnapshotReady).is_err());
    assert_eq!(receipt.state(), UpgradeState::Quiesced);
    assert!(receipt
        .require_rollback(UpgradeFailureCode::PostSwitchValidationFailed)
        .is_err());
}

#[test]
fn pre_switch_failure_preserves_original_as_terminal_result() {
    let mut receipt = receipt();
    receipt
        .advance(UpgradeState::Quiesced)
        .expect("quiescence is recorded");
    receipt
        .abort_preserved(UpgradeFailureCode::SnapshotFailed, false)
        .expect("pre-switch failure is recorded");

    assert_eq!(receipt.state(), UpgradeState::AbortedPreserved);
    assert_eq!(
        receipt.failure_code(),
        Some(UpgradeFailureCode::SnapshotFailed)
    );
    assert!(!receipt.manual_recovery_required());
    assert!(receipt.advance(UpgradeState::SnapshotReady).is_err());
    receipt.validate().expect("aborted receipt remains valid");
}

#[test]
fn post_switch_failure_requires_explicit_rollback_completion() {
    let mut receipt = switched_receipt();
    receipt
        .require_rollback(UpgradeFailureCode::PostSwitchValidationFailed)
        .expect("rollback is required");
    assert!(receipt.manual_recovery_required());
    receipt.mark_rolled_back().expect("rollback completes");

    assert_eq!(receipt.state(), UpgradeState::RolledBack);
    assert_eq!(
        receipt.failure_code(),
        Some(UpgradeFailureCode::PostSwitchValidationFailed)
    );
    assert!(!receipt.manual_recovery_required());
}

#[test]
fn receipt_rejects_unsafe_identity_and_unstable_identifiers() {
    assert!(UpgradeArtifactIdentity::new(
        UpgradeArtifactSlot::SourceDatabase,
        10,
        20,
        501,
        0o644,
        1,
        100,
    )
    .is_err());
    assert!(UpgradeArtifactIdentity::new(
        UpgradeArtifactSlot::SourceDatabase,
        10,
        20,
        501,
        0o600,
        2,
        100,
    )
    .is_err());
    assert!(UpgradeReceipt::new(
        "NOT-A-STABLE-ID".to_string(),
        None,
        ProductRelease::new("0.0.9".to_string(), 34).expect("source release"),
        ProductRelease::new("0.1.0".to_string(), 35).expect("target release"),
        Some(8),
        9,
        vec![
            data_root(),
            private_file(UpgradeArtifactSlot::SourceDatabase, 21),
        ],
    )
    .is_err());
}

fn invalid(field: UpgradeReceiptField, reason: UpgradeReceiptReason) -> UpgradeReceiptError {
    UpgradeReceiptError::Invalid { field, reason }
}

#[test]
fn new_receipt_sorts_artifacts_by_slot() {
    let receipt = UpgradeReceipt::new(
        "00112233445566778899aabbccddeeff".to_string(),
        Some("ffeeddccbbaa99887766554433221100".to_string()),
        ProductRelease::new("0.0.9".to_string(), 34).expect("source release"),
        ProductRelease::new("0.1.0".to_string(), 35).expect("target release"),
        Some(8),
        9,
        vec![
            private_file(UpgradeArtifactSlot::SourceDatabase, 21),
            data_root(),
        ],
    )
    .expect("receipt");
    let slots: Vec<UpgradeArtifactSlot> =
        receipt.artifacts().iter().map(|artifact| artifact.slot()).collect();
    assert_eq!(
        slots,
        vec![UpgradeArtifactSlot::DataRoot, UpgradeArtifactSlot::SourceDatabase]
    );
    assert_eq!(
        receipt.previous_operation_id(),
        Some("ffeeddccbbaa99887766554433221100")
    );
    assert_eq!(receipt.source_schema_version(), Some(8));
    assert_eq!(receipt.target_schema_version(), 9);
    assert_eq!(receipt.target_release().product_version(), "0.1.0");
    assert_eq!(receipt.source_release().build_number(), 34);
}

#[test]
fn receipt_fields_are_checked_in_order() {
    let make = |previous: Option<&str>, source: (&str, u64), target: (&str, u64), schema: i64| {
        UpgradeReceipt::new(
            "00112233445566778899aabbccddeeff".to_string(),
            previous.map(|text| text.to_string()),
            ProductRelease::new(source.0.to_string(), source.1).expect("source release"),
            ProductRelease::new(target.0.to_string(), target.1).expect("target release"),
            Some(8),
            schema,
            vec![
                data_root(),
                private_file(UpgradeArtifactSlot::SourceDatabase, 21),
            ],
        )
    };
    assert_eq!(
        make(Some("00112233445566778899aabbccddeeff"), ("0.0.9", 34), ("0.1.0", 35), 9).err(),
        Some(invalid(
            UpgradeReceiptField::PreviousOperationId,
            UpgradeReceiptReason::PreviousOperationSame
        ))
    );
    assert_eq!(
        make(None, ("0.1.0", 35), ("0.1.0", 35), 9).err(),
        Some(invalid(
            UpgradeReceiptField::TargetRelease,
            UpgradeReceiptReason::TargetReleaseSame
        ))
    );
    assert_eq!(
        make(None, ("0.0.9", 34), ("0.1.0", 35), 0).err(),
        Some(invalid(
            UpgradeReceiptField::TargetSchemaVersion,
            UpgradeReceiptReason::TargetSchemaNotPositive
        ))
    );
    assert_eq!(
        ProductRelease::new("01.0.0".to_string(), 1).err(),
        Some(invalid(
            UpgradeReceiptField::Release,
            UpgradeReceiptReason::VersionNotNumeric
        ))
    );
    assert_eq!(
        ProductRelease::new("1.0.0".to_string(), 0).err(),
        Some(invalid(
            UpgradeReceiptField::Release,
            UpgradeReceiptReason::BuildNumberZero
        ))
    );
}

#[test]
fn source_schema_and_source_database_must_agree() {
    let result = UpgradeReceipt::new(
        "00112233445566778899aabbccddeeff".to_string(),
        None,
        ProductRelease::new("0.0.9".to_string(), 34).expect("source release"),
        ProductRelease::new("0.1.0".to_string(), 35).expect("target release"),
        None,
        9,
        vec![
            data_root(),
            private_file(UpgradeArtifactSlot::SourceDatabase, 21),
        ],
    );
    assert_eq!(
        result.err(),
        Some(invalid(
            UpgradeReceiptField::SourceSchemaVersion,
            UpgradeReceiptReason::SourceDatabaseSchemaDisagree
        ))
    );
    let missing_root = UpgradeReceipt::new(
        "00112233445566778899aabbccddeeff".to_string(),
        None,
        ProductRelease::new("0.0.9".to_string(), 34).expect("source release"),
        ProductRelease::new("0.1.0".to_string(), 35).expect("target release"),
        None,
        9,
        Vec::new(),
    );
    assert_eq!(
        missing_root.err(),
        Some(invalid(
            UpgradeReceiptField::Artifacts,
            UpgradeReceiptReason::ArtifactsEmpty
        ))
    );
}

#[test]
fn duplicate_slot_and_directory_rules_are_refused() {
    let mut receipt = receipt();
    assert_eq!(
        receipt
            .record_artifact(private_file(UpgradeArtifactSlot::SourceDatabase, 99))
            .err(),
        Some(invalid(
            UpgradeReceiptField::Artifacts,
            UpgradeReceiptReason::SlotAlreadyRecorded
        ))
    );
    assert_eq!(receipt.artifacts().len(), 2);
    assert_eq!(
        UpgradeArtifactIdentity::new(UpgradeArtifactSlot::RimeRoot, 1, 2, 3, 0o700, 2, 5).err(),
        Some(invalid(
            UpgradeReceiptField::Artifacts,
            UpgradeReceiptReason::DirectoryHasLength
        ))
    );
    assert_eq!(
        UpgradeArtifactIdentity::new(UpgradeArtifactSlot::RimeRoot, 1, 0, 3, 0o700, 2, 0).err(),
        Some(invalid(
            UpgradeReceiptField::Artifacts,
            UpgradeReceiptReason::InodeZero
        ))
    );
    assert!(
        UpgradeArtifactIdentity::new(UpgradeArtifactSlot::RimeRoot, 1, 2, 3, 0o700, 4, 0).is_ok()
    );
}

#[test]
fn settings_identities_must_pair_after_quiescence() {
    let mut receipt = receipt();
    receipt
        .record_artifact(private_file(UpgradeArtifactSlot::SourceSettings, 30))
        .expect("settings source may be recorded before the snapshot");
    receipt
        .advance(UpgradeState::Quiesced)
        .expect("state advances");
    receipt
        .record_artifact(private_file(UpgradeArtifactSlot::SnapshotDatabase, 22))
        .expect("snapshot identity is recorded");
    assert_eq!(
        receipt.advance(UpgradeState::SnapshotReady).err(),
        Some(invalid(
            UpgradeReceiptField::Artifacts,
            UpgradeReceiptReason::SettingsDisagree
        ))
    );
    assert_eq!(receipt.state(), UpgradeState::Quiesced);
    receipt
        .record_artifact(private_file(UpgradeArtifactSlot::BackupSettings, 31))
        .expect("settings backup is recorded");
    receipt
        .advance(UpgradeState::SnapshotReady)
        .expect("state advances");
}

#[test]
fn every_successful_step_can_replace_the_previous_receipt() {
    let first = receipt();
    let mut next = first.clone();
    next.advance(UpgradeState::Quiesced).expect("state advances");
    assert!(next.can_replace(&first));
    assert!(!first.can_replace(&next));
    let before_record = next.clone();
    next.record_artifact(private_file(UpgradeArtifactSlot::SnapshotDatabase, 22))
        .expect("snapshot identity is recorded");
    assert!(next.can_replace(&before_record));
    assert!(!before_record.can_replace(&next));
    let before_abort = next.clone();
    next.abort_preserved(UpgradeFailureCode::SnapshotFailed, true)
        .expect("abort is recorded");
    assert!(next.can_replace(&before_abort));
    assert!(next.manual_recovery_required());
    assert_eq!(next.failure_after_state(), Some(UpgradeState::Quiesced));
    assert!(!next.can_replace(&next.clone()));
}

#[test]
fn rollback_requires_a_switched_candidate() {
    let mut receipt = switched_receipt();
    assert_eq!(
        receipt.mark_rolled_back().err(),
        Some(invalid(
            UpgradeReceiptField::State,
            UpgradeReceiptReason::FinishRequiresRollbackRequired
        ))
    );
    assert_eq!(
        receipt
            .abort_preserved(UpgradeFailureCode::SwitchFailed, false)
            .err(),
        Some(invalid(
            UpgradeReceiptField::State,
            UpgradeReceiptReason::AbortRequiresPreSwitch
        ))
    );
    let before = receipt.clone();
    receipt
        .require_rollback(UpgradeFailureCode::SwitchFailed)
        .expect("rollback is required");
    assert!(receipt.can_replace(&before));
    assert_eq!(receipt.failure_after_state(), Some(UpgradeState::Switched));
}

#[test]
fn receipt_frame_requires_size_and_newline() {
    assert_eq!(
        check_upgrade_receipt_frame(b""),
        Err(invalid(
            UpgradeReceiptField::Receipt,
            UpgradeReceiptReason::SizeOutOfRange
        ))
    );
    assert_eq!(
        check_upgrade_receipt_frame(b"{}"),
        Err(invalid(
            UpgradeReceiptField::Receipt,
            UpgradeReceiptReason::MissingNewline
        ))
    );
    assert_eq!(check_upgrade_receipt_frame(b"{}\n"), Ok(()));
    let too_long = vec![b'\n'; MAX_UPGRADE_RECEIPT_BYTES + 1];
    assert!(check_upgrade_receipt_frame(&too_long).is_err());
    let longest = vec![b'\n'; MAX_UPGRADE_RECEIPT_BYTES];
    assert!(check_upgrade_receipt_frame(&longest).is_ok());
}

//! The checks that open and close the data steps of an upgrade: the database
//! snapshot, the migration candidate and the settings backup. Each step starts
//! only from the stored receipt in its state, with no file of the step left
//! over and the recorded source found unchanged; a copy is accepted only when
//! it is the private file created for it, as long as its source, with the
//! source unchanged meanwhile.

use vstd::prelude::*;

use crate::fs_objects::{is_same_file, same_file};
use crate::upgrade_receipt::{UpgradeArtifactIdentity, UpgradeArtifactSlot, UpgradeReceipt, UpgradeReceiptView, UpgradeState};
use crate::upgrade_store::{recorded_artifact, recorded_in, UpgradeFilesystemError, UpgradeFilesystemErrorCode};
use crate::upgrade_switch::{
    check_private_data_file, file_artifact_matches, holds, place_unsafe, FileFacts,
};

verus! {

/// The receipt handed in is the one stored.
pub open spec fn is_stored(v: UpgradeReceiptView, stored: Option<UpgradeReceiptView>) -> bool {
    stored == Some(v)
}

fn matches_stored(receipt: &UpgradeReceipt, stored: Option<&UpgradeReceipt>) -> (r: bool)
    ensures
        r == is_stored(
            receipt@,
            match stored {
                Some(s) => Some(s@),
                None => None,
            },
        ),
{
    match stored {
        Some(s) => s.same_as(receipt),
        None => false,
    }
}

/// A place holds nothing or an object other than a private data file.
pub open spec fn missing_or_unsafe(place: Option<FileFacts>, owner_id: u32) -> bool {
    place is None || place_unsafe(place, owner_id)
}

fn is_missing_or_unsafe(place: &Option<FileFacts>, owner_id: u32) -> (r: bool)
    ensures
        r == missing_or_unsafe(*place, owner_id),
{
    match place {
        Some(f) => check_private_data_file(f, owner_id, UpgradeFilesystemErrorCode::IdentityChanged).is_err(),
        None => true,
    }
}

fn place_matches(place: &Option<FileFacts>, identity: &UpgradeArtifactIdentity) -> (r: bool)
    ensures
        r == holds(*place, identity@),
{
    match place {
        Some(f) => file_artifact_matches(identity, f),
        None => false,
    }
}

/// The snapshot starts from the stored, quiesced receipt without a snapshot,
/// whose recorded source settings, if any, are backed up already, with no
/// snapshot file left over, and with the recorded source database found
/// active and unchanged while its schema version is known.
pub open spec fn snapshot_start_check(
    v: UpgradeReceiptView,
    stored: Option<UpgradeReceiptView>,
    staged_present: bool,
    snapshot_present: bool,
    source: Option<FileFacts>,
    owner_id: u32,
) -> Result<(), UpgradeFilesystemErrorCode> {
    if v.state != UpgradeState::Quiesced || !is_stored(v, stored) || v.has(UpgradeArtifactSlot::SnapshotDatabase)
        || (v.has(UpgradeArtifactSlot::SourceSettings) && !v.has(UpgradeArtifactSlot::BackupSettings)) {
        Err(UpgradeFilesystemErrorCode::InvalidSnapshotState)
    } else if staged_present || snapshot_present {
        Err(UpgradeFilesystemErrorCode::InterruptedSnapshot)
    } else if missing_or_unsafe(source, owner_id) {
        Err(UpgradeFilesystemErrorCode::IdentityChanged)
    } else {
        match recorded_in(v, UpgradeArtifactSlot::SourceDatabase) {
            None => Err(UpgradeFilesystemErrorCode::InvalidSnapshotState),
            Some(s) => if !holds(source, s) || v.source_schema_version is None {
                Err(UpgradeFilesystemErrorCode::IdentityChanged)
            } else {
                Ok(())
            },
        }
    }
}

pub fn check_snapshot_start(
    receipt: &UpgradeReceipt,
    stored: Option<&UpgradeReceipt>,
    staged_present: bool,
    snapshot_present: bool,
    source: Option<FileFacts>,
    owner_id: u32,
) -> (r: Result<(), UpgradeFilesystemError>)
    requires
        receipt@.wf(),
    ensures
        match snapshot_start_check(
            receipt@,
            match stored {
                Some(s) => Some(s@),
                None => None,
            },
            staged_present,
            snapshot_present,
            source,
            owner_id,
        ) {
            Ok(()) => r is Ok,
            Err(code) => r matches Err(e) && e.code_spec() == code,
        },
{
    if receipt.state() != UpgradeState::Quiesced || !matches_stored(receipt, stored) || recorded_artifact(
        receipt,
        UpgradeArtifactSlot::SnapshotDatabase,
    ).is_some() || (recorded_artifact(receipt, UpgradeArtifactSlot::SourceSettings).is_some() && recorded_artifact(
        receipt,
        UpgradeArtifactSlot::BackupSettings,
    ).is_none()) {
        return Err(UpgradeFilesystemError::new(UpgradeFilesystemErrorCode::InvalidSnapshotState));
    }
    if staged_present || snapshot_present {
        return Err(UpgradeFilesystemError::new(UpgradeFilesystemErrorCode::InterruptedSnapshot));
    }
    if is_missing_or_unsafe(&source, owner_id) {
        return Err(UpgradeFilesystemError::new(UpgradeFilesystemErrorCode::IdentityChanged));
    }
    match recorded_artifact(receipt, UpgradeArtifactSlot::SourceDatabase) {
        None => Err(UpgradeFilesystemError::new(UpgradeFilesystemErrorCode::InvalidSnapshotState)),
        Some(s) => {
            if !place_matches(&source, s) || receipt.source_schema_version().is_none() {
                Err(UpgradeFilesystemError::new(UpgradeFilesystemErrorCode::IdentityChanged))
            } else {
                Ok(())
            }
        },
    }
}

/// How the migration candidate step goes on from a stored receipt.
#[derive(Debug, Clone, Copy, PartialEq, Eq, Structural)]
pub enum CandidateStart {
    /// A candidate is recorded already: it is checked and the step resumes.
    Resume,
    /// A new candidate is made from the recorded snapshot.
    Create,
}

/// The candidate starts from the stored receipt whose snapshot is ready: a
/// recorded candidate resumes; otherwise no candidate file may be left over and
/// the recorded snapshot must be the private file found.
pub open spec fn candidate_start_check(
    v: UpgradeReceiptView,
    stored: Option<UpgradeReceiptView>,
    staged_present: bool,
    candidate_present: bool,
    snapshot: Option<FileFacts>,
    owner_id: u32,
) -> Result<CandidateStart, UpgradeFilesystemErrorCode> {
    if v.state != UpgradeState::SnapshotReady || !is_stored(v, stored) {
        Err(UpgradeFilesystemErrorCode::InvalidCandidateState)
    } else if v.has(UpgradeArtifactSlot::CandidateDatabase) {
        Ok(CandidateStart::Resume)
    } else if staged_present || candidate_present {
        Err(UpgradeFilesystemErrorCode::InterruptedCandidate)
    } else {
        match recorded_in(v, UpgradeArtifactSlot::SnapshotDatabase) {
            None => Err(UpgradeFilesystemErrorCode::InvalidCandidateState),
            Some(s) => if missing_or_unsafe(snapshot, owner_id) || !holds(snapshot, s) {
                Err(UpgradeFilesystemErrorCode::IdentityChanged)
            } else {
                Ok(CandidateStart::Create)
            },
        }
    }
}

pub fn check_candidate_start(
    receipt: &UpgradeReceipt,
    stored: Option<&UpgradeReceipt>,
    staged_present: bool,
    candidate_present: bool,
    snapshot: Option<FileFacts>,
    owner_id: u32,
) -> (r: Result<CandidateStart, UpgradeFilesystemError>)
    requires
        receipt@.wf(),
    ensures
        match candidate_start_check(
            receipt@,
            match stored {
                Some(s) => Some(s@),
                None => None,
            },
            staged_present,
            candidate_present,
            snapshot,
            owner_id,
        ) {
            Ok(start) => r == Ok::<CandidateStart, UpgradeFilesystemError>(start),
            Err(code) => r matches Err(e) && e.code_spec() == code,
        },
{
    if receipt.state() != UpgradeState::SnapshotReady || !matches_stored(receipt, stored) {
        return Err(UpgradeFilesystemError::new(UpgradeFilesystemErrorCode::InvalidCandidateState));
    }
    if recorded_artifact(receipt, UpgradeArtifactSlot::CandidateDatabase).is_some() {
        return Ok(CandidateStart::Resume);
    }
    if staged_present || candidate_present {
        return Err(UpgradeFilesystemError::new(UpgradeFilesystemErrorCode::InterruptedCandidate));
    }
    match recorded_artifact(receipt, UpgradeArtifactSlot::SnapshotDatabase) {
        None => Err(UpgradeFilesystemError::new(UpgradeFilesystemErrorCode::InvalidCandidateState)),
        Some(s) => {
            if is_missing_or_unsafe(&snapshot, owner_id) || !place_matches(&snapshot, s) {
                Err(UpgradeFilesystemError::new(UpgradeFilesystemErrorCode::IdentityChanged))
            } else {
                Ok(CandidateStart::Create)
            }
        },
    }
}

/// The settings backup starts from the stored, quiesced receipt before any
/// settings backup, snapshot or candidate, with the source settings recorded,
/// no backup file left over, and the recorded settings found unchanged.
pub open spec fn settings_start_check(
    v: UpgradeReceiptView,
    stored: Option<UpgradeReceiptView>,
    staged_present: bool,
    backup_present: bool,
    source: Option<FileFacts>,
    owner_id: u32,
) -> Result<(), UpgradeFilesystemErrorCode> {
    if v.state != UpgradeState::Quiesced || !is_stored(v, stored) || v.has(UpgradeArtifactSlot::BackupSettings) || v.has(
        UpgradeArtifactSlot::SnapshotDatabase,
    ) || v.has(UpgradeArtifactSlot::CandidateDatabase) {
        Err(UpgradeFilesystemErrorCode::InvalidSettingsState)
    } else {
        match recorded_in(v, UpgradeArtifactSlot::SourceSettings) {
            None => Err(UpgradeFilesystemErrorCode::InvalidSettingsState),
            Some(s) => if staged_present || backup_present {
                Err(UpgradeFilesystemErrorCode::InterruptedSettingsBackup)
            } else if missing_or_unsafe(source, owner_id) || !holds(source, s) {
                Err(UpgradeFilesystemErrorCode::IdentityChanged)
            } else {
                Ok(())
            },
        }
    }
}

pub fn check_settings_start(
    receipt: &UpgradeReceipt,
    stored: Option<&UpgradeReceipt>,
    staged_present: bool,
    backup_present: bool,
    source: Option<FileFacts>,
    owner_id: u32,
) -> (r: Result<(), UpgradeFilesystemError>)
    requires
        receipt@.wf(),
    ensures
        match settings_start_check(
            receipt@,
            match stored {
                Some(s) => Some(s@),
                None => None,
            },
            staged_present,
            backup_present,
            source,
            owner_id,
        ) {
            Ok(()) => r is Ok,
            Err(code) => r matches Err(e) && e.code_spec() == code,
        },
{
    if receipt.state() != UpgradeState::Quiesced || !matches_stored(receipt, stored) || recorded_artifact(
        receipt,
        UpgradeArtifactSlot::BackupSettings,
    ).is_some() || recorded_artifact(receipt, UpgradeArtifactSlot::SnapshotDatabase).is_some() || recorded_artifact(
        receipt,
        UpgradeArtifactSlot::CandidateDatabase,
    ).is_some() {
        return Err(UpgradeFilesystemError::new(UpgradeFilesystemErrorCode::InvalidSettingsState));
    }
    match recorded_artifact(receipt, UpgradeArtifactSlot::SourceSettings) {
        None => Err(UpgradeFilesystemError::new(UpgradeFilesystemErrorCode::InvalidSettingsState)),
        Some(s) => {
            if staged_present || backup_present {
                Err(UpgradeFilesystemError::new(UpgradeFilesystemErrorCode::InterruptedSettingsBackup))
            } else if is_missing_or_unsafe(&source, owner_id) || !place_matches(&source, s) {
                Err(UpgradeFilesystemError::new(UpgradeFilesystemErrorCode::IdentityChanged))
            } else {
                Ok(())
            }
        },
    }
}

/// A copy is accepted when as many bytes were copied as the source holds, the
/// staged file is still the private file created for the copy and as long as
/// the source, and the source reads as it did before the copy.
pub open spec fn staged_copy_check(
    created: FileFacts,
    copied_bytes: u64,
    staged: Option<FileFacts>,
    source_before: FileFacts,
    source_after: Option<FileFacts>,
    owner_id: u32,
) -> bool {
    &&& copied_bytes == source_before.byte_len
    &&& !missing_or_unsafe(staged, owner_id)
    &&& staged matches Some(s) && s.device_id == created.device_id && s.inode == created.inode && s.byte_len
        == source_before.byte_len
    &&& !missing_or_unsafe(source_after, owner_id)
    &&& source_after matches Some(a) && same_file(a, source_before)
}

/// Any failed part of the copy check means the files changed underneath.
pub fn check_staged_copy(
    created: FileFacts,
    copied_bytes: u64,
    staged: Option<FileFacts>,
    source_before: FileFacts,
    source_after: Option<FileFacts>,
    owner_id: u32,
) -> (r: Result<(), UpgradeFilesystemError>)
    ensures
        r is Ok <==> staged_copy_check(created, copied_bytes, staged, source_before, source_after, owner_id),
        r matches Err(e) ==> e.code_spec() == UpgradeFilesystemErrorCode::IdentityChanged,
{
    let changed = UpgradeFilesystemError::new(UpgradeFilesystemErrorCode::IdentityChanged);
    if copied_bytes != source_before.byte_len || is_missing_or_unsafe(&staged, owner_id) {
        return Err(changed);
    }
    match staged {
        Some(s) => {
            if s.device_id != created.device_id || s.inode != created.inode || s.byte_len != source_before.byte_len {
                return Err(changed);
            }
        },
        None => return Err(changed),
    }
    if is_missing_or_unsafe(&source_after, owner_id) {
        return Err(changed);
    }
    match source_after {
        Some(a) => {
            if is_same_file(&a, &source_before) {
                Ok(())
            } else {
                Err(changed)
            }
        },
        None => Err(changed),
    }
}

/// A data step never starts twice: once its file is recorded, the snapshot and
/// settings checks refuse the receipt, and the candidate check only resumes.
pub proof fn lemma_recorded_steps_do_not_restart(
    v: UpgradeReceiptView,
    stored: Option<UpgradeReceiptView>,
    staged_present: bool,
    present: bool,
    place: Option<FileFacts>,
    owner_id: u32,
)
    ensures
        v.has(UpgradeArtifactSlot::SnapshotDatabase) ==> snapshot_start_check(
            v,
            stored,
            staged_present,
            present,
            place,
            owner_id,
        ) is Err,
        v.has(UpgradeArtifactSlot::BackupSettings) ==> settings_start_check(
            v,
            stored,
            staged_present,
            present,
            place,
            owner_id,
        ) is Err,
        v.has(UpgradeArtifactSlot::CandidateDatabase) ==> candidate_start_check(
            v,
            stored,
            staged_present,
            present,
            place,
            owner_id,
        ) != Ok::<CandidateStart, UpgradeFilesystemErrorCode>(CandidateStart::Create),
{
}


/// A snapshot is taken only once any recorded source settings are backed up, so
/// a receipt that reaches `SnapshotReady` through this check never lacks the
/// settings backup.
pub proof fn lemma_snapshot_waits_for_settings_backup(
    v: UpgradeReceiptView,
    stored: Option<UpgradeReceiptView>,
    staged_present: bool,
    snapshot_present: bool,
    source: Option<FileFacts>,
    owner_id: u32,
)
    ensures
        snapshot_start_check(v, stored, staged_present, snapshot_present, source, owner_id) is Ok ==> (v.has(
            UpgradeArtifactSlot::SourceSettings,
        ) ==> v.has(UpgradeArtifactSlot::BackupSettings)),
{
}

} // verus!

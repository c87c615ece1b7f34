//! The database switch and its rollback as renames between three fixed places:
//! the active database, the migration candidate and the source backup. Each
//! step's outcome is read back from the file identities found there, so an
//! interrupted switch or rollback resumes from exactly where it stopped.

use vstd::prelude::*;

use crate::upgrade_receipt::{
    UpgradeArtifactIdentity, UpgradeArtifactIdentityView, UpgradeArtifactSlot, UpgradeReceipt, UpgradeReceiptView,
    UpgradeState,
};
use crate::upgrade_store::{
    recorded_artifact, recorded_in, UpgradeFilesystemError, UpgradeFilesystemErrorCode, UpgradeRollbackRestoreDisposition,
    UpgradeSwitchDisposition,
};

verus! {

#[derive(Debug, Clone, Copy, PartialEq, Eq, Structural)]
pub enum FileKind {
    File,
    Directory,
    Socket,
    Other,
}

/// What the filesystem reports of one object: its kind, where it lives, who owns
/// it, its mode word, its link count and its length.
#[derive(Debug, Clone, Copy, PartialEq, Eq, Structural)]
pub struct FileFacts {
    pub kind: FileKind,
    pub device_id: u64,
    pub inode: u64,
    pub owner_id: u32,
    pub mode: u32,
    pub link_count: u64,
    pub byte_len: u64,
}

/// The permission bits of a mode word.
pub open spec fn permission_bits(mode: u32) -> u32 {
    mode & 0o7777u32
}

/// A private data file: a regular file of the expected owner, mode `0600`, one link.
pub open spec fn private_data_file(f: FileFacts, owner_id: u32) -> bool {
    f.kind == FileKind::File && f.owner_id == owner_id && permission_bits(f.mode) == 0o600u32 && f.link_count
        == 1
}

/// Refuses a file that is not a private data file, with the given code.
pub fn check_private_data_file(facts: &FileFacts, owner_id: u32, code: UpgradeFilesystemErrorCode) -> (r: Result<
    (),
    UpgradeFilesystemError,
>)
    ensures
        r is Ok <==> private_data_file(*facts, owner_id),
        r matches Err(e) ==> e.code_spec() == code,
{
    if facts.kind != FileKind::File || facts.owner_id != owner_id || facts.mode & 0o7777u32 != 0o600u32
        || facts.link_count != 1 {
        return Err(UpgradeFilesystemError::new(code));
    }
    Ok(())
}

/// The file found is the one the identity records.
pub open spec fn file_matches(identity: UpgradeArtifactIdentityView, f: FileFacts) -> bool {
    identity.device_id == f.device_id && identity.inode == f.inode && identity.owner_id == f.owner_id
        && identity.mode == permission_bits(f.mode) && identity.link_count == f.link_count && identity.byte_len
        == f.byte_len
}

pub fn file_artifact_matches(identity: &UpgradeArtifactIdentity, facts: &FileFacts) -> (r: bool)
    ensures
        r == file_matches(identity@, *facts),
{
    identity.device_id() == facts.device_id && identity.inode() == facts.inode && identity.owner_id()
        == facts.owner_id && identity.mode() == facts.mode & 0o7777u32 && identity.link_count()
        == facts.link_count && identity.byte_len() == facts.byte_len
}

/// Two identities record the same database file, whatever slot they are in.
pub open spec fn same_object(left: UpgradeArtifactIdentityView, right: UpgradeArtifactIdentityView) -> bool {
    left.device_id == right.device_id && left.inode == right.inode && left.owner_id == right.owner_id
        && left.mode == right.mode && left.link_count == right.link_count && left.byte_len == right.byte_len
}

pub fn same_database_object(left: &UpgradeArtifactIdentity, right: &UpgradeArtifactIdentity) -> (r: bool)
    ensures
        r == same_object(left@, right@),
{
    left.device_id() == right.device_id() && left.inode() == right.inode() && left.owner_id() == right.owner_id()
        && left.mode() == right.mode() && left.link_count() == right.link_count() && left.byte_len()
        == right.byte_len()
}

/// The candidate must be a file other than the source.
pub fn validate_distinct_database_objects(source: &UpgradeArtifactIdentity, candidate: &UpgradeArtifactIdentity) -> (r:
    Result<(), UpgradeFilesystemError>)
    ensures
        r is Ok <==> !(source@.device_id == candidate@.device_id && source@.inode == candidate@.inode),
        r matches Err(e) ==> e.code_spec() == UpgradeFilesystemErrorCode::InvalidSwitchState,
{
    if source.device_id() == candidate.device_id() && source.inode() == candidate.inode() {
        Err(UpgradeFilesystemError::new(UpgradeFilesystemErrorCode::InvalidSwitchState))
    } else {
        Ok(())
    }
}

/// Every place of the switch lies on the data root's filesystem, so that each
/// rename is atomic; the backup, when recorded, is the source file itself.
pub open spec fn same_filesystem(
    root_device: u64,
    state_directory_device: u64,
    source: UpgradeArtifactIdentityView,
    candidate: UpgradeArtifactIdentityView,
    backup: Option<UpgradeArtifactIdentityView>,
) -> bool {
    &&& state_directory_device == root_device
    &&& source.device_id == root_device
    &&& candidate.device_id == root_device
    &&& match backup {
        Some(b) => b.device_id == root_device && same_object(source, b),
        None => true,
    }
}

pub fn validate_same_filesystem(
    root_device: u64,
    state_directory_device: u64,
    source: &UpgradeArtifactIdentity,
    candidate: &UpgradeArtifactIdentity,
    backup: Option<&UpgradeArtifactIdentity>,
) -> (r: Result<(), UpgradeFilesystemError>)
    ensures
        r is Ok <==> same_filesystem(
            root_device,
            state_directory_device,
            source@,
            candidate@,
            match backup {
                Some(b) => Some(b@),
                None => None,
            },
        ),
        r matches Err(e) ==> e.code_spec() == UpgradeFilesystemErrorCode::InvalidSwitchState,
{
    if state_directory_device != root_device || source.device_id() != root_device || candidate.device_id()
        != root_device {
        return Err(UpgradeFilesystemError::new(UpgradeFilesystemErrorCode::InvalidSwitchState));
    }
    match backup {
        Some(b) => {
            if b.device_id() == root_device && same_database_object(source, b) {
                Ok(())
            } else {
                Err(UpgradeFilesystemError::new(UpgradeFilesystemErrorCode::InvalidSwitchState))
            }
        },
        None => Ok(()),
    }
}

/// The source identity recorded again in another slot, as the backup is.
pub fn identity_with_slot(slot: UpgradeArtifactSlot, source: &UpgradeArtifactIdentity) -> (r: Result<
    UpgradeArtifactIdentity,
    UpgradeFilesystemError,
>)
    ensures
        ({
            let v = UpgradeArtifactIdentityView { slot, ..source@ };
            &&& r is Ok <==> v.check() is Ok
            &&& r matches Ok(id) ==> id@ == v
            &&& r matches Err(e) ==> e.code_spec() == UpgradeFilesystemErrorCode::InvalidSwitchState
        }),
{
    match UpgradeArtifactIdentity::new(
        slot,
        source.device_id(),
        source.inode(),
        source.owner_id(),
        source.mode(),
        source.link_count(),
        source.byte_len(),
    ) {
        Ok(id) => Ok(id),
        Err(_) => Err(UpgradeFilesystemError::new(UpgradeFilesystemErrorCode::InvalidSwitchState)),
    }
}

/// The private files found at the three places of the switch.
#[derive(Debug, Clone, Copy, PartialEq, Eq, Structural)]
pub struct DatabaseLayout {
    pub active: Option<FileFacts>,
    pub candidate: Option<FileFacts>,
    pub backup: Option<FileFacts>,
}

/// The identities the receipt records for the three database files.
#[derive(Debug, Clone, Copy, PartialEq, Eq, Structural)]
pub struct SwitchIdentities {
    pub source: UpgradeArtifactIdentity,
    pub candidate: UpgradeArtifactIdentity,
    pub backup: UpgradeArtifactIdentity,
}

pub open spec fn holds(place: Option<FileFacts>, identity: UpgradeArtifactIdentityView) -> bool {
    place matches Some(f) && file_matches(identity, f)
}

fn place_holds(place: &Option<FileFacts>, identity: &UpgradeArtifactIdentity) -> (r: bool)
    ensures
        r == holds(*place, identity@),
{
    match place {
        Some(f) => file_artifact_matches(identity, f),
        None => false,
    }
}

/// How far a switch has moved the databases.
#[derive(Debug, Clone, Copy, PartialEq, Eq, Structural)]
pub enum SwitchScene {
    /// The source is active and the candidate waits in the state directory.
    Unmoved,
    /// The source moved to the backup place; nothing is active.
    BackupMoved,
    /// The candidate is active and the source is kept as backup.
    CandidateMoved,
}

/// The switch scene the layout shows, if it shows one.
pub open spec fn switch_scene(ids: SwitchIdentities, l: DatabaseLayout) -> Option<SwitchScene> {
    switch_scene_of(ids.source@, ids.candidate@, ids.backup@, l)
}

pub open spec fn switch_scene_of(
    source: UpgradeArtifactIdentityView,
    candidate: UpgradeArtifactIdentityView,
    backup: UpgradeArtifactIdentityView,
    l: DatabaseLayout,
) -> Option<SwitchScene> {
    if holds(l.active, source) && holds(l.candidate, candidate) && l.backup is None {
        Some(SwitchScene::Unmoved)
    } else if l.active is None && holds(l.candidate, candidate) && holds(l.backup, backup) {
        Some(SwitchScene::BackupMoved)
    } else if holds(l.active, candidate) && l.candidate is None && holds(l.backup, backup) {
        Some(SwitchScene::CandidateMoved)
    } else {
        None
    }
}

/// Reads the switch scene from the files found; any other layout is refused.
pub fn classify_switch_scene(ids: &SwitchIdentities, layout: &DatabaseLayout) -> (r: Result<
    SwitchScene,
    UpgradeFilesystemError,
>)
    ensures
        match switch_scene(*ids, *layout) {
            Some(scene) => r == Ok::<SwitchScene, UpgradeFilesystemError>(scene),
            None => r matches Err(e) && e.code_spec() == UpgradeFilesystemErrorCode::InvalidSwitchState,
        },
{
    if place_holds(&layout.active, &ids.source) && place_holds(&layout.candidate, &ids.candidate)
        && layout.backup.is_none() {
        Ok(SwitchScene::Unmoved)
    } else if layout.active.is_none() && place_holds(&layout.candidate, &ids.candidate) && place_holds(
        &layout.backup,
        &ids.backup,
    ) {
        Ok(SwitchScene::BackupMoved)
    } else if place_holds(&layout.active, &ids.candidate) && layout.candidate.is_none() && place_holds(
        &layout.backup,
        &ids.backup,
    ) {
        Ok(SwitchScene::CandidateMoved)
    } else {
        Err(UpgradeFilesystemError::new(UpgradeFilesystemErrorCode::InvalidSwitchState))
    }
}

/// How far a rollback has moved the databases back.
#[derive(Debug, Clone, Copy, PartialEq, Eq, Structural)]
pub enum RollbackScene {
    /// The candidate is still active.
    Switched,
    /// The candidate is back in the state directory; nothing is active.
    CandidateReturned,
    /// The source is active again.
    SourceRestored,
}

/// The rollback scene the layout shows, if it shows one.
pub open spec fn rollback_scene(ids: SwitchIdentities, l: DatabaseLayout) -> Option<RollbackScene> {
    rollback_scene_of(ids.source@, ids.candidate@, ids.backup@, l)
}

pub open spec fn rollback_scene_of(
    source: UpgradeArtifactIdentityView,
    candidate: UpgradeArtifactIdentityView,
    backup: UpgradeArtifactIdentityView,
    l: DatabaseLayout,
) -> Option<RollbackScene> {
    if holds(l.active, candidate) && l.candidate is None && holds(l.backup, backup) {
        Some(RollbackScene::Switched)
    } else if l.active is None && holds(l.candidate, candidate) && holds(l.backup, backup) {
        Some(RollbackScene::CandidateReturned)
    } else if holds(l.active, source) && holds(l.candidate, candidate) && l.backup is None {
        Some(RollbackScene::SourceRestored)
    } else {
        None
    }
}

/// Reads the rollback scene from the files found; any other layout is refused.
pub fn classify_rollback_scene(ids: &SwitchIdentities, layout: &DatabaseLayout) -> (r: Result<
    RollbackScene,
    UpgradeFilesystemError,
>)
    ensures
        match rollback_scene(*ids, *layout) {
            Some(scene) => r == Ok::<RollbackScene, UpgradeFilesystemError>(scene),
            None => r matches Err(e) && e.code_spec() == UpgradeFilesystemErrorCode::InvalidSwitchState,
        },
{
    if place_holds(&layout.active, &ids.candidate) && layout.candidate.is_none() && place_holds(
        &layout.backup,
        &ids.backup,
    ) {
        Ok(RollbackScene::Switched)
    } else if layout.active.is_none() && place_holds(&layout.candidate, &ids.candidate) && place_holds(
        &layout.backup,
        &ids.backup,
    ) {
        Ok(RollbackScene::CandidateReturned)
    } else if place_holds(&layout.active, &ids.source) && place_holds(&layout.candidate, &ids.candidate)
        && layout.backup.is_none() {
        Ok(RollbackScene::SourceRestored)
    } else {
        Err(UpgradeFilesystemError::new(UpgradeFilesystemErrorCode::InvalidSwitchState))
    }
}

/// One rename of the switch or the rollback.
#[derive(Debug, Clone, Copy, PartialEq, Eq, Structural)]
pub enum DatabaseMove {
    /// Active database to the backup place.
    ActiveToBackup,
    /// Candidate to the active place.
    CandidateToActive,
    /// Active database back to the candidate place.
    ActiveToCandidate,
    /// Backup back to the active place.
    BackupToActive,
}

/// The layout after a rename.
pub open spec fn after_move(l: DatabaseLayout, m: DatabaseMove) -> DatabaseLayout {
    match m {
        DatabaseMove::ActiveToBackup => DatabaseLayout { active: None, backup: l.active, ..l },
        DatabaseMove::CandidateToActive => DatabaseLayout { active: l.candidate, candidate: None, ..l },
        DatabaseMove::ActiveToCandidate => DatabaseLayout { active: None, candidate: l.active, ..l },
        DatabaseMove::BackupToActive => DatabaseLayout { active: l.backup, backup: None, ..l },
    }
}

/// The rename a switch makes next from `scene`; none once the candidate is active.
pub open spec fn switch_step_spec(scene: SwitchScene) -> Option<DatabaseMove> {
    match scene {
        SwitchScene::Unmoved => Some(DatabaseMove::ActiveToBackup),
        SwitchScene::BackupMoved => Some(DatabaseMove::CandidateToActive),
        SwitchScene::CandidateMoved => None,
    }
}

pub fn next_switch_step(scene: SwitchScene) -> (r: Option<DatabaseMove>)
    ensures
        r == switch_step_spec(scene),
{
    match scene {
        SwitchScene::Unmoved => Some(DatabaseMove::ActiveToBackup),
        SwitchScene::BackupMoved => Some(DatabaseMove::CandidateToActive),
        SwitchScene::CandidateMoved => None,
    }
}

/// The rename a rollback makes next from `scene`; none once the source is active.
pub open spec fn rollback_step_spec(scene: RollbackScene) -> Option<DatabaseMove> {
    match scene {
        RollbackScene::Switched => Some(DatabaseMove::ActiveToCandidate),
        RollbackScene::CandidateReturned => Some(DatabaseMove::BackupToActive),
        RollbackScene::SourceRestored => None,
    }
}

pub fn next_rollback_step(scene: RollbackScene) -> (r: Option<DatabaseMove>)
    ensures
        r == rollback_step_spec(scene),
{
    match scene {
        RollbackScene::Switched => Some(DatabaseMove::ActiveToCandidate),
        RollbackScene::CandidateReturned => Some(DatabaseMove::BackupToActive),
        RollbackScene::SourceRestored => None,
    }
}

/// The identities a switch can rely on: the backup is the source file itself.
pub open spec fn consistent_identities(ids: SwitchIdentities) -> bool {
    same_object(ids.source@, ids.backup@)
}

/// The layout a switch leaves when it runs to the end from `l`.
pub open spec fn finish_switch(ids: SwitchIdentities, l: DatabaseLayout) -> DatabaseLayout {
    match switch_scene(ids, l) {
        Some(SwitchScene::Unmoved) => after_move(
            after_move(l, DatabaseMove::ActiveToBackup),
            DatabaseMove::CandidateToActive,
        ),
        Some(SwitchScene::BackupMoved) => after_move(l, DatabaseMove::CandidateToActive),
        _ => l,
    }
}

/// The layout a rollback leaves when it runs to the end from `l`.
pub open spec fn finish_rollback(ids: SwitchIdentities, l: DatabaseLayout) -> DatabaseLayout {
    match rollback_scene(ids, l) {
        Some(RollbackScene::Switched) => after_move(
            after_move(l, DatabaseMove::ActiveToCandidate),
            DatabaseMove::BackupToActive,
        ),
        Some(RollbackScene::CandidateReturned) => after_move(l, DatabaseMove::BackupToActive),
        _ => l,
    }
}

/// Each rename of the switch leads from its scene to the next one, so a switch
/// interrupted at any rename resumes and ends with the candidate active and the
/// source kept as backup.
pub proof fn lemma_switch_steps_advance(ids: SwitchIdentities, l: DatabaseLayout)
    requires
        consistent_identities(ids),
    ensures
        switch_scene(ids, l) == Some(SwitchScene::Unmoved) ==> switch_scene(
            ids,
            after_move(l, DatabaseMove::ActiveToBackup),
        ) == Some(SwitchScene::BackupMoved),
        switch_scene(ids, l) == Some(SwitchScene::BackupMoved) ==> switch_scene(
            ids,
            after_move(l, DatabaseMove::CandidateToActive),
        ) == Some(SwitchScene::CandidateMoved),
        switch_scene(ids, l) is Some ==> switch_scene(ids, finish_switch(ids, l)) == Some(
            SwitchScene::CandidateMoved,
        ),
{
}

/// Each rename of the rollback leads from its scene to the next one, so a
/// rollback interrupted at any rename resumes and ends with the source active and
/// the candidate back in the state directory.
pub proof fn lemma_rollback_steps_advance(ids: SwitchIdentities, l: DatabaseLayout)
    requires
        consistent_identities(ids),
    ensures
        rollback_scene(ids, l) == Some(RollbackScene::Switched) ==> rollback_scene(
            ids,
            after_move(l, DatabaseMove::ActiveToCandidate),
        ) == Some(RollbackScene::CandidateReturned),
        rollback_scene(ids, l) == Some(RollbackScene::CandidateReturned) ==> rollback_scene(
            ids,
            after_move(l, DatabaseMove::BackupToActive),
        ) == Some(RollbackScene::SourceRestored),
        rollback_scene(ids, l) is Some ==> rollback_scene(ids, finish_rollback(ids, l)) == Some(
            RollbackScene::SourceRestored,
        ),
{
}

/// A rollback starts exactly where a finished switch ends, and ends exactly where
/// a switch starts: rolling back undoes the switch.
pub proof fn lemma_rollback_undoes_switch(ids: SwitchIdentities, l: DatabaseLayout)
    requires
        consistent_identities(ids),
        switch_scene(ids, l) is Some,
    ensures
        rollback_scene(ids, finish_switch(ids, l)) == Some(RollbackScene::Switched),
        switch_scene(ids, finish_rollback(ids, finish_switch(ids, l))) == Some(SwitchScene::Unmoved),
{
    lemma_switch_steps_advance(ids, l);
    lemma_rollback_steps_advance(ids, finish_switch(ids, l));
}

/// The layout after following the planned renames of a switch from `l`, at most
/// `n` of them, stopping where the plan has no rename or the layout shows no scene.
pub open spec fn run_switch_plan(ids: SwitchIdentities, l: DatabaseLayout, n: nat) -> DatabaseLayout
    decreases n,
{
    if n == 0 {
        l
    } else {
        match switch_scene(ids, l) {
            Some(scene) => match switch_step_spec(scene) {
                Some(m) => run_switch_plan(ids, after_move(l, m), (n - 1) as nat),
                None => l,
            },
            None => l,
        }
    }
}

/// The layout after following the planned renames of a rollback from `l`, at
/// most `n` of them, stopping where the plan has no rename or the layout shows
/// no scene.
pub open spec fn run_rollback_plan(ids: SwitchIdentities, l: DatabaseLayout, n: nat) -> DatabaseLayout
    decreases n,
{
    if n == 0 {
        l
    } else {
        match rollback_scene(ids, l) {
            Some(scene) => match rollback_step_spec(scene) {
                Some(m) => run_rollback_plan(ids, after_move(l, m), (n - 1) as nat),
                None => l,
            },
            None => l,
        }
    }
}

/// The switch plan stops only once the candidate is active, and following it
/// from any switch scene makes the renames that end with the candidate active and
/// the source kept as backup; no further step changes anything.
pub proof fn lemma_switch_plan_reaches_candidate_active(ids: SwitchIdentities, l: DatabaseLayout, n: nat)
    requires
        consistent_identities(ids),
        switch_scene(ids, l) is Some,
        n >= 2,
    ensures
        switch_step_spec(switch_scene(ids, l)->0) is None <==> switch_scene(ids, l) == Some(
            SwitchScene::CandidateMoved,
        ),
        run_switch_plan(ids, l, n) == finish_switch(ids, l),
        switch_scene(ids, run_switch_plan(ids, l, n)) == Some(SwitchScene::CandidateMoved),
        holds(run_switch_plan(ids, l, n).active, ids.candidate@),
        holds(run_switch_plan(ids, l, n).backup, ids.backup@),
{
    lemma_switch_steps_advance(ids, l);
    reveal_with_fuel(run_switch_plan, 3);
    match switch_scene(ids, l)->0 {
        SwitchScene::Unmoved => {
            let l1 = after_move(l, DatabaseMove::ActiveToBackup);
            lemma_switch_steps_advance(ids, l1);
            let l2 = after_move(l1, DatabaseMove::CandidateToActive);
            assert(run_switch_plan(ids, l2, (n - 2) as nat) == l2);
            assert(run_switch_plan(ids, l1, (n - 1) as nat) == l2);
        },
        SwitchScene::BackupMoved => {
            let l1 = after_move(l, DatabaseMove::CandidateToActive);
            assert(run_switch_plan(ids, l1, (n - 1) as nat) == l1);
        },
        SwitchScene::CandidateMoved => {},
    }
}

/// The rollback plan stops only once the source is active again, and following
/// it from any rollback scene makes the renames that end with the source active
/// and the candidate back in the state directory; no further step changes
/// anything.
pub proof fn lemma_rollback_plan_restores_source(ids: SwitchIdentities, l: DatabaseLayout, n: nat)
    requires
        consistent_identities(ids),
        rollback_scene(ids, l) is Some,
        n >= 2,
    ensures
        rollback_step_spec(rollback_scene(ids, l)->0) is None <==> rollback_scene(ids, l) == Some(
            RollbackScene::SourceRestored,
        ),
        run_rollback_plan(ids, l, n) == finish_rollback(ids, l),
        rollback_scene(ids, run_rollback_plan(ids, l, n)) == Some(RollbackScene::SourceRestored),
        holds(run_rollback_plan(ids, l, n).active, ids.source@),
        holds(run_rollback_plan(ids, l, n).candidate, ids.candidate@),
{
    lemma_rollback_steps_advance(ids, l);
    reveal_with_fuel(run_rollback_plan, 3);
    match rollback_scene(ids, l)->0 {
        RollbackScene::Switched => {
            let l1 = after_move(l, DatabaseMove::ActiveToCandidate);
            lemma_rollback_steps_advance(ids, l1);
            let l2 = after_move(l1, DatabaseMove::BackupToActive);
            assert(run_rollback_plan(ids, l2, (n - 2) as nat) == l2);
            assert(run_rollback_plan(ids, l1, (n - 1) as nat) == l2);
        },
        RollbackScene::CandidateReturned => {
            let l1 = after_move(l, DatabaseMove::BackupToActive);
            assert(run_rollback_plan(ids, l1, (n - 1) as nat) == l1);
        },
        RollbackScene::SourceRestored => {},
    }
}

/// A staged file, a moved-in file and the receipt agree: no staged file is left
/// over; a file without a recorded identity was interrupted; a recorded file must
/// be the private file found, without database sidecars; and a recorded file may
/// only be missing where `missing_allowed` says it has moved on.
pub open spec fn recorded_file_check(
    staged_present: bool,
    found: Option<FileFacts>,
    owner_id: u32,
    recorded: Option<UpgradeArtifactIdentityView>,
    interrupted: UpgradeFilesystemErrorCode,
    missing_allowed: bool,
    sidecars_present: bool,
) -> Result<(), UpgradeFilesystemErrorCode> {
    if staged_present {
        Err(interrupted)
    } else {
        match (found, recorded) {
            (None, None) => Ok(()),
            (Some(f), Some(identity)) => if !private_data_file(f, owner_id) || !file_matches(identity, f) {
                Err(UpgradeFilesystemErrorCode::IdentityChanged)
            } else if sidecars_present {
                Err(UpgradeFilesystemErrorCode::CandidateMigrationFailed)
            } else {
                Ok(())
            },
            (Some(_), None) => Err(interrupted),
            (None, Some(_)) => if missing_allowed {
                Ok(())
            } else {
                Err(UpgradeFilesystemErrorCode::IdentityChanged)
            },
        }
    }
}

pub fn validate_recorded_file(
    staged_present: bool,
    found: Option<FileFacts>,
    owner_id: u32,
    recorded: Option<&UpgradeArtifactIdentity>,
    interrupted: UpgradeFilesystemErrorCode,
    missing_allowed: bool,
    sidecars_present: bool,
) -> (r: Result<(), UpgradeFilesystemError>)
    ensures
        match recorded_file_check(
            staged_present,
            found,
            owner_id,
            match recorded {
                Some(i) => Some(i@),
                None => None,
            },
            interrupted,
            missing_allowed,
            sidecars_present,
        ) {
            Ok(()) => r is Ok,
            Err(code) => r matches Err(e) && e.code_spec() == code,
        },
{
    if staged_present {
        return Err(UpgradeFilesystemError::new(interrupted));
    }
    match (found, recorded) {
        (None, None) => Ok(()),
        (Some(f), Some(identity)) => {
            if check_private_data_file(&f, owner_id, UpgradeFilesystemErrorCode::IdentityChanged).is_err()
                || !file_artifact_matches(identity, &f) {
                Err(UpgradeFilesystemError::new(UpgradeFilesystemErrorCode::IdentityChanged))
            } else if sidecars_present {
                Err(UpgradeFilesystemError::new(UpgradeFilesystemErrorCode::CandidateMigrationFailed))
            } else {
                Ok(())
            }
        },
        (Some(_), None) => Err(UpgradeFilesystemError::new(interrupted)),
        (None, Some(_)) => {
            if missing_allowed {
                Ok(())
            } else {
                Err(UpgradeFilesystemError::new(UpgradeFilesystemErrorCode::IdentityChanged))
            }
        },
    }
}

/// The states in which the migration candidate has been switched in, so the
/// candidate path may be empty.
pub open spec fn candidate_moved_on(state: UpgradeState) -> bool {
    state is SwitchPrepared || state is Switched || state is PostSwitchVerified || state is Completed
        || state is RollbackRequired || state is RolledBack
}

pub fn candidate_may_be_moved(state: UpgradeState) -> (r: bool)
    ensures
        r == candidate_moved_on(state),
{
    match state {
        UpgradeState::SwitchPrepared | UpgradeState::Switched | UpgradeState::PostSwitchVerified
        | UpgradeState::Completed | UpgradeState::RollbackRequired | UpgradeState::RolledBack => true,
        _ => false,
    }
}


/// A place holds an object other than a private data file.
pub open spec fn place_unsafe(place: Option<FileFacts>, owner_id: u32) -> bool {
    place matches Some(f) && !private_data_file(f, owner_id)
}

fn place_is_unsafe(place: &Option<FileFacts>, owner_id: u32) -> (r: bool)
    ensures
        r == place_unsafe(*place, owner_id),
{
    match place {
        Some(f) => check_private_data_file(f, owner_id, UpgradeFilesystemErrorCode::IdentityChanged).is_err(),
        None => false,
    }
}

/// Every place of the switch holds nothing or a private data file.
pub open spec fn layout_private(l: DatabaseLayout, owner_id: u32) -> bool {
    !place_unsafe(l.active, owner_id) && !place_unsafe(l.candidate, owner_id) && !place_unsafe(l.backup, owner_id)
}

/// The source and candidate are verified and nothing has moved yet: both files
/// are where the receipt recorded them, no backup exists, and a recorded backup
/// identity is the source file itself.
pub open spec fn candidate_verified_check(
    v: UpgradeReceiptView,
    root_device: u64,
    state_directory_device: u64,
    l: DatabaseLayout,
    owner_id: u32,
) -> Result<(), UpgradeFilesystemErrorCode> {
    match (recorded_in(v, UpgradeArtifactSlot::SourceDatabase), recorded_in(v, UpgradeArtifactSlot::CandidateDatabase)) {
        (Some(s), Some(c)) => if s.device_id == c.device_id && s.inode == c.inode {
            Err(UpgradeFilesystemErrorCode::InvalidSwitchState)
        } else if !same_filesystem(root_device, state_directory_device, s, c, None) {
            Err(UpgradeFilesystemErrorCode::InvalidSwitchState)
        } else if l.active is None || place_unsafe(l.active, owner_id) || l.candidate is None || place_unsafe(
            l.candidate,
            owner_id,
        ) {
            Err(UpgradeFilesystemErrorCode::IdentityChanged)
        } else if !holds(l.active, s) || !holds(l.candidate, c) || l.backup is Some {
            Err(UpgradeFilesystemErrorCode::InvalidSwitchState)
        } else if recorded_in(v, UpgradeArtifactSlot::BackupDatabase) matches Some(b) && !same_object(s, b) {
            Err(UpgradeFilesystemErrorCode::InvalidSwitchState)
        } else {
            Ok(())
        },
        _ => Err(UpgradeFilesystemErrorCode::InvalidSwitchState),
    }
}

/// What the three places must show once the switch has been prepared, run or
/// rolled back in state `state`.
pub open spec fn moved_scene_check(
    state: UpgradeState,
    s: UpgradeArtifactIdentityView,
    c: UpgradeArtifactIdentityView,
    b: UpgradeArtifactIdentityView,
    l: DatabaseLayout,
) -> Result<(), UpgradeFilesystemErrorCode> {
    if state is SwitchPrepared {
        if switch_scene_of(s, c, b, l) is Some { Ok(()) } else { Err(UpgradeFilesystemErrorCode::InvalidSwitchState) }
    } else if state is RollbackRequired {
        if rollback_scene_of(s, c, b, l) is Some { Ok(()) } else { Err(UpgradeFilesystemErrorCode::InvalidSwitchState) }
    } else if state is RolledBack {
        if rollback_scene_of(s, c, b, l) == Some(RollbackScene::SourceRestored) {
            Ok(())
        } else {
            Err(UpgradeFilesystemErrorCode::InvalidSwitchState)
        }
    } else {
        if switch_scene_of(s, c, b, l) == Some(SwitchScene::CandidateMoved) {
            Ok(())
        } else {
            Err(UpgradeFilesystemErrorCode::InvalidSwitchState)
        }
    }
}

/// The states after the switch was prepared, in which all three database
/// identities are recorded.
pub open spec fn switch_underway(state: UpgradeState) -> bool {
    state is SwitchPrepared || state is Switched || state is PostSwitchVerified || state is Completed
        || state is RollbackRequired || state is RolledBack
}

/// The database files agree with the receipt's state: before the switch no
/// backup exists; once the candidate is verified both files are unmoved; once
/// the switch is underway no database sidecar exists, all three identities are
/// recorded on the data root's filesystem, and the places show a scene that the
/// state allows.
pub open spec fn switch_state_check(
    receipt: Option<UpgradeReceiptView>,
    root_device: u64,
    state_directory_device: u64,
    l: DatabaseLayout,
    owner_id: u32,
    sidecars_present: bool,
) -> Result<(), UpgradeFilesystemErrorCode> {
    if place_unsafe(l.backup, owner_id) {
        Err(UpgradeFilesystemErrorCode::IdentityChanged)
    } else {
        match receipt {
            Some(v) if v.state is CandidateVerified => candidate_verified_check(
                v,
                root_device,
                state_directory_device,
                l,
                owner_id,
            ),
            Some(v) if switch_underway(v.state) => if sidecars_present {
                Err(UpgradeFilesystemErrorCode::InterruptedSwitch)
            } else {
                match (
                    recorded_in(v, UpgradeArtifactSlot::SourceDatabase),
                    recorded_in(v, UpgradeArtifactSlot::CandidateDatabase),
                    recorded_in(v, UpgradeArtifactSlot::BackupDatabase),
                ) {
                    (Some(s), Some(c), Some(b)) => if v.state is SwitchPrepared && s.device_id == c.device_id
                        && s.inode == c.inode {
                        Err(UpgradeFilesystemErrorCode::InvalidSwitchState)
                    } else if !same_filesystem(root_device, state_directory_device, s, c, Some(b)) {
                        Err(UpgradeFilesystemErrorCode::InvalidSwitchState)
                    } else if !layout_private(l, owner_id) {
                        Err(UpgradeFilesystemErrorCode::IdentityChanged)
                    } else {
                        moved_scene_check(v.state, s, c, b, l)
                    },
                    _ => Err(UpgradeFilesystemErrorCode::InvalidSwitchState),
                }
            },
            _ => if l.backup is Some {
                Err(UpgradeFilesystemErrorCode::InterruptedSwitch)
            } else {
                Ok(())
            },
        }
    }
}

fn check_candidate_verified(
    receipt: &UpgradeReceipt,
    root_device: u64,
    state_directory_device: u64,
    layout: &DatabaseLayout,
    owner_id: u32,
) -> (r: Result<(), UpgradeFilesystemError>)
    requires
        receipt@.wf(),
    ensures
        match candidate_verified_check(receipt@, root_device, state_directory_device, *layout, owner_id) {
            Ok(()) => r is Ok,
            Err(code) => r matches Err(e) && e.code_spec() == code,
        },
{
    let invalid = UpgradeFilesystemError::new(UpgradeFilesystemErrorCode::InvalidSwitchState);
    let source = match recorded_artifact(receipt, UpgradeArtifactSlot::SourceDatabase) {
        Some(a) => a,
        None => return Err(invalid),
    };
    let candidate = match recorded_artifact(receipt, UpgradeArtifactSlot::CandidateDatabase) {
        Some(a) => a,
        None => return Err(invalid),
    };
    validate_distinct_database_objects(source, candidate)?;
    validate_same_filesystem(root_device, state_directory_device, source, candidate, None)?;
    if layout.active.is_none() || place_is_unsafe(&layout.active, owner_id) || layout.candidate.is_none()
        || place_is_unsafe(&layout.candidate, owner_id) {
        return Err(UpgradeFilesystemError::new(UpgradeFilesystemErrorCode::IdentityChanged));
    }
    if !place_holds(&layout.active, source) || !place_holds(&layout.candidate, candidate) || layout.backup.is_some() {
        return Err(invalid);
    }
    match recorded_artifact(receipt, UpgradeArtifactSlot::BackupDatabase) {
        Some(b) => {
            if !same_database_object(source, b) {
                return Err(invalid);
            }
        },
        None => {},
    }
    Ok(())
}

/// Checks the database files against the receipt, as found at the active,
/// candidate and backup places, with whether any database sidecar exists there.
pub fn validate_switch_state(
    receipt: Option<&UpgradeReceipt>,
    root_device: u64,
    state_directory_device: u64,
    layout: &DatabaseLayout,
    owner_id: u32,
    sidecars_present: bool,
) -> (r: Result<(), UpgradeFilesystemError>)
    requires
        receipt matches Some(v) ==> v@.wf(),
    ensures
        match switch_state_check(
            match receipt {
                Some(v) => Some(v@),
                None => None,
            },
            root_device,
            state_directory_device,
            *layout,
            owner_id,
            sidecars_present,
        ) {
            Ok(()) => r is Ok,
            Err(code) => r matches Err(e) && e.code_spec() == code,
        },
{
    if place_is_unsafe(&layout.backup, owner_id) {
        return Err(UpgradeFilesystemError::new(UpgradeFilesystemErrorCode::IdentityChanged));
    }
    let interrupted_if_backup = if layout.backup.is_some() {
        Err(UpgradeFilesystemError::new(UpgradeFilesystemErrorCode::InterruptedSwitch))
    } else {
        Ok(())
    };
    let receipt = match receipt {
        Some(v) => v,
        None => return interrupted_if_backup,
    };
    let state = receipt.state();
    match state {
        UpgradeState::CandidateVerified => {
            return check_candidate_verified(receipt, root_device, state_directory_device, layout, owner_id);
        },
        UpgradeState::SwitchPrepared | UpgradeState::Switched | UpgradeState::PostSwitchVerified
        | UpgradeState::Completed | UpgradeState::RollbackRequired | UpgradeState::RolledBack => {},
        _ => return interrupted_if_backup,
    }
    if sidecars_present {
        return Err(UpgradeFilesystemError::new(UpgradeFilesystemErrorCode::InterruptedSwitch));
    }
    let invalid = UpgradeFilesystemError::new(UpgradeFilesystemErrorCode::InvalidSwitchState);
    let source = match recorded_artifact(receipt, UpgradeArtifactSlot::SourceDatabase) {
        Some(a) => a,
        None => return Err(invalid),
    };
    let candidate = match recorded_artifact(receipt, UpgradeArtifactSlot::CandidateDatabase) {
        Some(a) => a,
        None => return Err(invalid),
    };
    let backup = match recorded_artifact(receipt, UpgradeArtifactSlot::BackupDatabase) {
        Some(a) => a,
        None => return Err(invalid),
    };
    if state == UpgradeState::SwitchPrepared {
        validate_distinct_database_objects(source, candidate)?;
    }
    validate_same_filesystem(root_device, state_directory_device, source, candidate, Some(backup))?;
    if place_is_unsafe(&layout.active, owner_id) || place_is_unsafe(&layout.candidate, owner_id) {
        return Err(UpgradeFilesystemError::new(UpgradeFilesystemErrorCode::IdentityChanged));
    }
    let ids = SwitchIdentities { source: *source, candidate: *candidate, backup: *backup };
    match state {
        UpgradeState::SwitchPrepared => {
            classify_switch_scene(&ids, layout)?;
            Ok(())
        },
        UpgradeState::RollbackRequired => {
            classify_rollback_scene(&ids, layout)?;
            Ok(())
        },
        UpgradeState::RolledBack => {
            match classify_rollback_scene(&ids, layout) {
                Ok(RollbackScene::SourceRestored) => Ok(()),
                Ok(_) => Err(invalid),
                Err(e) => Err(e),
            }
        },
        _ => {
            match classify_switch_scene(&ids, layout) {
                Ok(SwitchScene::CandidateMoved) => Ok(()),
                Ok(_) => Err(invalid),
                Err(e) => Err(e),
            }
        },
    }
}


/// Preparing a switch records the backup identity once: a recorded backup must
/// be the source file itself; otherwise the source must be the private file
/// found active, all files on the data root's filesystem, no sidecar and no
/// backup present, and the source identity is recorded again as the backup.
pub open spec fn backup_record_check(
    v: UpgradeReceiptView,
    root_device: u64,
    state_directory_device: u64,
    active: Option<FileFacts>,
    backup_place: Option<FileFacts>,
    owner_id: u32,
    sidecars_present: bool,
) -> Result<Option<UpgradeArtifactIdentityView>, UpgradeFilesystemErrorCode> {
    match (recorded_in(v, UpgradeArtifactSlot::SourceDatabase), recorded_in(v, UpgradeArtifactSlot::CandidateDatabase)) {
        (Some(s), Some(c)) => if s.device_id == c.device_id && s.inode == c.inode {
            Err(UpgradeFilesystemErrorCode::InvalidSwitchState)
        } else {
            match recorded_in(v, UpgradeArtifactSlot::BackupDatabase) {
                Some(b) => if same_object(s, b) {
                    Ok(None)
                } else {
                    Err(UpgradeFilesystemErrorCode::InvalidSwitchState)
                },
                None => if active is None || place_unsafe(active, owner_id) || !holds(active, s) {
                    Err(UpgradeFilesystemErrorCode::IdentityChanged)
                } else if !same_filesystem(root_device, state_directory_device, s, c, None) {
                    Err(UpgradeFilesystemErrorCode::InvalidSwitchState)
                } else if sidecars_present {
                    Err(UpgradeFilesystemErrorCode::InterruptedSwitch)
                } else if place_unsafe(backup_place, owner_id) {
                    Err(UpgradeFilesystemErrorCode::IdentityChanged)
                } else if backup_place is Some {
                    Err(UpgradeFilesystemErrorCode::InterruptedSwitch)
                } else {
                    let b = UpgradeArtifactIdentityView { slot: UpgradeArtifactSlot::BackupDatabase, ..s };
                    if b.check() is Ok {
                        Ok(Some(b))
                    } else {
                        Err(UpgradeFilesystemErrorCode::InvalidSwitchState)
                    }
                },
            }
        },
        _ => Err(UpgradeFilesystemErrorCode::InvalidSwitchState),
    }
}

/// The backup identity a switch must record before it is prepared, or `None`
/// when the receipt already records it.
pub fn plan_backup_record(
    receipt: &UpgradeReceipt,
    root_device: u64,
    state_directory_device: u64,
    active: Option<FileFacts>,
    backup_place: Option<FileFacts>,
    owner_id: u32,
    sidecars_present: bool,
) -> (r: Result<Option<UpgradeArtifactIdentity>, UpgradeFilesystemError>)
    requires
        receipt@.wf(),
    ensures
        match backup_record_check(
            receipt@,
            root_device,
            state_directory_device,
            active,
            backup_place,
            owner_id,
            sidecars_present,
        ) {
            Ok(Some(b)) => r matches Ok(Some(id)) && id@ == b,
            Ok(None) => r matches Ok(None),
            Err(code) => r matches Err(e) && e.code_spec() == code,
        },
{
    let invalid = UpgradeFilesystemError::new(UpgradeFilesystemErrorCode::InvalidSwitchState);
    let changed = UpgradeFilesystemError::new(UpgradeFilesystemErrorCode::IdentityChanged);
    let source = match recorded_artifact(receipt, UpgradeArtifactSlot::SourceDatabase) {
        Some(a) => a,
        None => return Err(invalid),
    };
    let candidate = match recorded_artifact(receipt, UpgradeArtifactSlot::CandidateDatabase) {
        Some(a) => a,
        None => return Err(invalid),
    };
    validate_distinct_database_objects(source, candidate)?;
    match recorded_artifact(receipt, UpgradeArtifactSlot::BackupDatabase) {
        Some(b) => {
            return if same_database_object(source, b) {
                Ok(None)
            } else {
                Err(invalid)
            };
        },
        None => {},
    }
    if active.is_none() || place_is_unsafe(&active, owner_id) || !place_holds(&active, source) {
        return Err(changed);
    }
    validate_same_filesystem(root_device, state_directory_device, source, candidate, None)?;
    if sidecars_present {
        return Err(UpgradeFilesystemError::new(UpgradeFilesystemErrorCode::InterruptedSwitch));
    }
    if place_is_unsafe(&backup_place, owner_id) {
        return Err(changed);
    }
    if backup_place.is_some() {
        return Err(UpgradeFilesystemError::new(UpgradeFilesystemErrorCode::InterruptedSwitch));
    }
    let backup = identity_with_slot(UpgradeArtifactSlot::BackupDatabase, source)?;
    Ok(Some(backup))
}


/// The backup a switch records is the source file itself, and a state check that
/// passes once the switch is underway found the recorded backup to be the
/// source file: the identities the switch and rollback steps rely on.
pub proof fn lemma_recorded_backup_is_source(
    v: UpgradeReceiptView,
    root_device: u64,
    state_directory_device: u64,
    l: DatabaseLayout,
    owner_id: u32,
    sidecars_present: bool,
)
    ensures
        backup_record_check(v, root_device, state_directory_device, l.active, l.backup, owner_id, sidecars_present)
            matches Ok(Some(b)) ==> (recorded_in(v, UpgradeArtifactSlot::SourceDatabase) matches Some(s)
            && same_object(s, b) && b.slot == UpgradeArtifactSlot::BackupDatabase),
        switch_state_check(Some(v), root_device, state_directory_device, l, owner_id, sidecars_present) is Ok
            && switch_underway(v.state) ==> (recorded_in(v, UpgradeArtifactSlot::SourceDatabase) matches Some(s)
            && recorded_in(v, UpgradeArtifactSlot::BackupDatabase) matches Some(b) && same_object(s, b)),
{
}


/// How a switch request goes on from the stored receipt's state.
#[derive(Debug, Clone, Copy, PartialEq, Eq, Structural)]
pub enum SwitchStart {
    /// The switch is done already: it is reported, and nothing moves.
    Report(UpgradeSwitchDisposition),
    /// The backup is recorded and the switch prepared before any rename.
    Prepare,
    /// The prepared switch resumes from the scene found.
    Resume,
}

/// A switched receipt is reported as already switched; a verified candidate is
/// prepared first; a prepared switch resumes; any other state is refused.
pub open spec fn switch_start_spec(state: UpgradeState) -> Result<SwitchStart, UpgradeFilesystemErrorCode> {
    match state {
        UpgradeState::Switched => Ok(SwitchStart::Report(UpgradeSwitchDisposition::AlreadySwitched)),
        UpgradeState::CandidateVerified => Ok(SwitchStart::Prepare),
        UpgradeState::SwitchPrepared => Ok(SwitchStart::Resume),
        _ => Err(UpgradeFilesystemErrorCode::InvalidSwitchState),
    }
}

pub fn plan_switch_start(state: UpgradeState) -> (r: Result<SwitchStart, UpgradeFilesystemError>)
    ensures
        match switch_start_spec(state) {
            Ok(start) => r == Ok::<SwitchStart, UpgradeFilesystemError>(start),
            Err(code) => r matches Err(e) && e.code_spec() == code,
        },
{
    match state {
        UpgradeState::Switched => Ok(SwitchStart::Report(UpgradeSwitchDisposition::AlreadySwitched)),
        UpgradeState::CandidateVerified => Ok(SwitchStart::Prepare),
        UpgradeState::SwitchPrepared => Ok(SwitchStart::Resume),
        _ => Err(UpgradeFilesystemError::new(UpgradeFilesystemErrorCode::InvalidSwitchState)),
    }
}

/// A restore that found the source active already reports so; any other start
/// reports the source as restored now.
pub open spec fn restore_disposition_spec(first: RollbackScene) -> UpgradeRollbackRestoreDisposition {
    if first == RollbackScene::SourceRestored {
        UpgradeRollbackRestoreDisposition::AlreadyRestoredAwaitingValidation
    } else {
        UpgradeRollbackRestoreDisposition::RestoredAwaitingValidation
    }
}

pub fn restore_disposition(first: RollbackScene) -> (r: UpgradeRollbackRestoreDisposition)
    ensures
        r == restore_disposition_spec(first),
{
    match first {
        RollbackScene::SourceRestored => UpgradeRollbackRestoreDisposition::AlreadyRestoredAwaitingValidation,
        _ => UpgradeRollbackRestoreDisposition::RestoredAwaitingValidation,
    }
}

/// A switch asked again is harmless: from `Switched` it only reports that the
/// switch happened, and from the final scene it plans no rename; and a switch
/// that is prepared plans exactly the renames that lead to the final scene.
pub proof fn lemma_switch_is_idempotent(ids: SwitchIdentities, l: DatabaseLayout)
    requires
        consistent_identities(ids),
    ensures
        switch_start_spec(UpgradeState::Switched) == Ok::<SwitchStart, UpgradeFilesystemErrorCode>(
            SwitchStart::Report(UpgradeSwitchDisposition::AlreadySwitched),
        ),
        switch_step_spec(SwitchScene::CandidateMoved) is None,
        switch_scene(ids, l) is Some ==> switch_scene(ids, finish_switch(ids, l)) == Some(SwitchScene::CandidateMoved),
{
    lemma_switch_steps_advance(ids, l);
}

/// A restore asked again is harmless: it reports the source as already restored
/// exactly when it started from the restored scene, where it plans no rename;
/// from any other rollback scene it plans the renames that restore the source.
pub proof fn lemma_restore_is_idempotent(ids: SwitchIdentities, l: DatabaseLayout, first: RollbackScene)
    requires
        consistent_identities(ids),
    ensures
        (restore_disposition_spec(first) == UpgradeRollbackRestoreDisposition::AlreadyRestoredAwaitingValidation)
            <==> first == RollbackScene::SourceRestored,
        rollback_step_spec(RollbackScene::SourceRestored) is None,
        rollback_scene(ids, l) is Some ==> rollback_scene(ids, finish_rollback(ids, l)) == Some(
            RollbackScene::SourceRestored,
        ),
{
    lemma_rollback_steps_advance(ids, l);
}

} // verus!

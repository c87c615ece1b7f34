//! Evidence of program bundles recorded at each step of an install operation.

use vstd::prelude::*;

use crate::install_product::{
    install_error, InstallReceiptError, InstallReceiptField, InstallReceiptReason,
    ProgramBundleIdentity, ProgramBundleIdentityView, ProgramComponent,
};

verus! {

/// The filesystem identity of a program bundle directory.
#[derive(Debug, Clone, Copy, PartialEq, Eq, Structural)]
pub struct ProgramFilesystemIdentity {
    device_id: u64,
    inode: u64,
    owner_id: u32,
    mode: u32,
}

impl ProgramFilesystemIdentity {
    /// A usable identity: positive inode and mode `0700` or `0755`.
    pub closed spec fn check(self) -> Result<(), InstallReceiptError> {
        if self.inode == 0 || !(self.mode == 0o700 || self.mode == 0o755) {
            Err(
                install_error(
                    InstallReceiptField::ProgramFilesystemIdentity,
                    InstallReceiptReason::ProgramFilesystemIdentityInvalid,
                ),
            )
        } else {
            Ok(())
        }
    }

    pub closed spec fn device_id_spec(self) -> u64 {
        self.device_id
    }

    pub closed spec fn inode_spec(self) -> u64 {
        self.inode
    }

    pub closed spec fn owner_id_spec(self) -> u32 {
        self.owner_id
    }

    pub closed spec fn mode_spec(self) -> u32 {
        self.mode
    }

    /// The four numbers determine the identity.
    pub proof fn lemma_determined(a: Self, b: Self)
        requires
            a.device_id_spec() == b.device_id_spec(),
            a.inode_spec() == b.inode_spec(),
            a.owner_id_spec() == b.owner_id_spec(),
            a.mode_spec() == b.mode_spec(),
        ensures
            a == b,
    {
    }

    /// The identity is accepted exactly when its inode is positive and its mode is
    /// `0700` or `0755`.
    pub proof fn lemma_check(self)
        ensures
            self.check() is Ok <==> (self.inode_spec() != 0 && (self.mode_spec() == 0o700
                || self.mode_spec() == 0o755)),
            self.check() matches Err(e) ==> e == install_error(
                InstallReceiptField::ProgramFilesystemIdentity,
                InstallReceiptReason::ProgramFilesystemIdentityInvalid,
            ),
    {
    }

    pub fn new(device_id: u64, inode: u64, owner_id: u32, mode: u32) -> (r: Result<
        Self,
        InstallReceiptError,
    >)
        ensures
            r is Ok <==> (inode != 0 && (mode == 0o700 || mode == 0o755)),
            r matches Ok(identity) ==> identity.device_id_spec() == device_id
                && identity.inode_spec() == inode && identity.owner_id_spec() == owner_id
                && identity.mode_spec() == mode && identity.check() is Ok,
            r matches Err(e) ==> e == install_error(
                InstallReceiptField::ProgramFilesystemIdentity,
                InstallReceiptReason::ProgramFilesystemIdentityInvalid,
            ),
    {
        let identity = ProgramFilesystemIdentity { device_id, inode, owner_id, mode };
        match identity.validate() {
            Ok(()) => Ok(identity),
            Err(e) => Err(e),
        }
    }

    pub fn device_id(&self) -> (r: u64)
        ensures
            r == self.device_id_spec(),
    {
        self.device_id
    }

    pub fn inode(&self) -> (r: u64)
        ensures
            r == self.inode_spec(),
    {
        self.inode
    }

    pub fn owner_id(&self) -> (r: u32)
        ensures
            r == self.owner_id_spec(),
    {
        self.owner_id
    }

    pub fn mode(&self) -> (r: u32)
        ensures
            r == self.mode_spec(),
    {
        self.mode
    }

    pub fn validate(&self) -> (r: Result<(), InstallReceiptError>)
        ensures
            r == self.check(),
    {
        if self.inode == 0 || !(self.mode == 0o700 || self.mode == 0o755) {
            return Err(
                InstallReceiptError::invalid(
                    InstallReceiptField::ProgramFilesystemIdentity,
                    InstallReceiptReason::ProgramFilesystemIdentityInvalid,
                ),
            );
        }
        Ok(())
    }
}

/// The role in which a program bundle is recorded.
#[derive(Debug, Clone, Copy, PartialEq, Eq, PartialOrd, Ord, Structural)]
pub enum InstallArtifactSlot {
    SourceManager,
    SourceInputMethod,
    StagedManager,
    StagedInputMethod,
    BackupManager,
    BackupInputMethod,
    InstalledManager,
    InstalledInputMethod,
}

impl InstallArtifactSlot {
    /// The slot's position in the canonical order of a receipt's artifacts.
    pub open spec fn rank_spec(self) -> u8 {
        match self {
            InstallArtifactSlot::SourceManager => 0,
            InstallArtifactSlot::SourceInputMethod => 1,
            InstallArtifactSlot::StagedManager => 2,
            InstallArtifactSlot::StagedInputMethod => 3,
            InstallArtifactSlot::BackupManager => 4,
            InstallArtifactSlot::BackupInputMethod => 5,
            InstallArtifactSlot::InstalledManager => 6,
            InstallArtifactSlot::InstalledInputMethod => 7,
        }
    }

    pub open spec fn component_spec(self) -> ProgramComponent {
        match self {
            InstallArtifactSlot::SourceManager | InstallArtifactSlot::StagedManager
            | InstallArtifactSlot::BackupManager | InstallArtifactSlot::InstalledManager =>
                ProgramComponent::Manager,
            _ => ProgramComponent::InputMethod,
        }
    }

    /// Slots that hold the target product's bundles (staged or installed).
    pub open spec fn target_spec(self) -> bool {
        self is StagedManager || self is StagedInputMethod || self is InstalledManager
            || self is InstalledInputMethod
    }

    pub proof fn lemma_rank_injective(a: Self, b: Self)
        ensures
            a.rank_spec() == b.rank_spec() <==> a == b,
    {
    }

    pub fn rank(self) -> (r: u8)
        ensures
            r == self.rank_spec(),
    {
        match self {
            InstallArtifactSlot::SourceManager => 0,
            InstallArtifactSlot::SourceInputMethod => 1,
            InstallArtifactSlot::StagedManager => 2,
            InstallArtifactSlot::StagedInputMethod => 3,
            InstallArtifactSlot::BackupManager => 4,
            InstallArtifactSlot::BackupInputMethod => 5,
            InstallArtifactSlot::InstalledManager => 6,
            InstallArtifactSlot::InstalledInputMethod => 7,
        }
    }

    pub fn component(self) -> (r: ProgramComponent)
        ensures
            r == self.component_spec(),
    {
        match self {
            InstallArtifactSlot::SourceManager | InstallArtifactSlot::StagedManager
            | InstallArtifactSlot::BackupManager | InstallArtifactSlot::InstalledManager =>
                ProgramComponent::Manager,
            InstallArtifactSlot::SourceInputMethod | InstallArtifactSlot::StagedInputMethod
            | InstallArtifactSlot::BackupInputMethod | InstallArtifactSlot::InstalledInputMethod =>
                ProgramComponent::InputMethod,
        }
    }

    pub fn is_target(self) -> (r: bool)
        ensures
            r == self.target_spec(),
    {
        matches!(
            self,
            InstallArtifactSlot::StagedManager | InstallArtifactSlot::StagedInputMethod
                | InstallArtifactSlot::InstalledManager | InstallArtifactSlot::InstalledInputMethod
        )
    }
}

pub struct InstallArtifactEvidenceView {
    pub slot: InstallArtifactSlot,
    pub identity: ProgramBundleIdentityView,
    pub filesystem_identity: ProgramFilesystemIdentity,
}

/// A program bundle recorded in a slot, with its filesystem identity.
#[derive(Debug, Clone, PartialEq, Eq)]
pub struct InstallArtifactEvidence {
    slot: InstallArtifactSlot,
    identity: ProgramBundleIdentity,
    filesystem_identity: ProgramFilesystemIdentity,
}

impl View for InstallArtifactEvidence {
    type V = InstallArtifactEvidenceView;

    closed spec fn view(&self) -> InstallArtifactEvidenceView {
        InstallArtifactEvidenceView {
            slot: self.slot,
            identity: self.identity@,
            filesystem_identity: self.filesystem_identity,
        }
    }
}

impl InstallArtifactEvidenceView {
    /// The checks that evidence construction makes, in order.
    pub open spec fn check(self) -> Result<(), InstallReceiptError> {
        if self.slot.component_spec() != self.identity.component {
            Err(
                install_error(
                    InstallReceiptField::ArtifactEvidence,
                    InstallReceiptReason::SlotComponentDiffers,
                ),
            )
        } else if self.identity.check() is Err {
            self.identity.check()
        } else {
            self.filesystem_identity.check()
        }
    }
}

impl InstallArtifactEvidence {
    /// Evidence of `identity` in `slot`: the slot's component must be the bundle's,
    /// and both identities must be valid.
    pub fn new(
        slot: InstallArtifactSlot,
        identity: ProgramBundleIdentity,
        filesystem_identity: ProgramFilesystemIdentity,
    ) -> (r: Result<Self, InstallReceiptError>)
        ensures
            ({
                let v = InstallArtifactEvidenceView {
                    slot,
                    identity: identity@,
                    filesystem_identity,
                };
                match r {
                    Ok(evidence) => evidence@ == v && v.check() is Ok,
                    Err(e) => v.check() == Err::<(), InstallReceiptError>(e),
                }
            }),
    {
        if slot.component() != identity.component() {
            return Err(
                InstallReceiptError::invalid(
                    InstallReceiptField::ArtifactEvidence,
                    InstallReceiptReason::SlotComponentDiffers,
                ),
            );
        }
        match identity.validate() {
            Err(e) => return Err(e),
            Ok(()) => {},
        }
        match filesystem_identity.validate() {
            Err(e) => return Err(e),
            Ok(()) => {},
        }
        Ok(InstallArtifactEvidence { slot, identity, filesystem_identity })
    }

    pub fn slot(&self) -> (r: InstallArtifactSlot)
        ensures
            r == self@.slot,
    {
        self.slot
    }

    pub fn identity(&self) -> (r: &ProgramBundleIdentity)
        ensures
            r@ == self@.identity,
    {
        &self.identity
    }

    pub fn filesystem_identity(&self) -> (r: &ProgramFilesystemIdentity)
        ensures
            *r == self@.filesystem_identity,
    {
        &self.filesystem_identity
    }

    pub fn same_as(&self, other: &InstallArtifactEvidence) -> (r: bool)
        ensures
            r == (self@ == other@),
    {
        self.slot == other.slot && self.identity.same_as(&other.identity)
            && self.filesystem_identity == other.filesystem_identity
    }
}

} // verus!

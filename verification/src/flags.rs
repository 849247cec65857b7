//! The flag values the native calls accept, each with the numeric value
//! the native library assigns to it.

use vstd::prelude::*;

verus! {

/// How a domain hostname is to be found.
#[derive(Clone, Copy, Debug, PartialEq, Eq, Structural)]
pub enum VirDomainGetHostnameFlags {
    /// Parse DHCP lease file
    VirDomainGetHostnameLease,
    /// Query qemu guest agent
    VirDomainGetHostnameAgent,
}

/// The native value of a `VirDomainGetHostnameFlags` flag.
pub open spec fn spec_virdomaingethostnameflags_value(f: VirDomainGetHostnameFlags) -> u32 {
    match f {
        VirDomainGetHostnameFlags::VirDomainGetHostnameLease => 1u32,
        VirDomainGetHostnameFlags::VirDomainGetHostnameAgent => 2u32,
    }
}

impl VirDomainGetHostnameFlags {
    /// The value the native library assigns to this flag.
    pub fn value(&self) -> (r: u32)
        ensures
            r == spec_virdomaingethostnameflags_value(*self),
    {
        match self {
            VirDomainGetHostnameFlags::VirDomainGetHostnameLease => 1,
            VirDomainGetHostnameFlags::VirDomainGetHostnameAgent => 2,
        }
    }
}

/// What a domain XML dump includes.
#[derive(Clone, Copy, Debug, PartialEq, Eq, Structural)]
pub enum VirDomainXMLFlags {
    /// dump security sensitive information too
    VirDomainXMLSecure,
    /// dump inactive domain information
    VirDomainXMLInactive,
    /// update guest CPU requirements according to host CPU
    VirDomainXMLUpdateCPU,
    /// dump XML suitable for migration
    VirDomainXMLMigratable,
}

/// The native value of a `VirDomainXMLFlags` flag.
pub open spec fn spec_virdomainxmlflags_value(f: VirDomainXMLFlags) -> u32 {
    match f {
        VirDomainXMLFlags::VirDomainXMLSecure => 1u32,
        VirDomainXMLFlags::VirDomainXMLInactive => 2u32,
        VirDomainXMLFlags::VirDomainXMLUpdateCPU => 4u32,
        VirDomainXMLFlags::VirDomainXMLMigratable => 8u32,
    }
}

impl VirDomainXMLFlags {
    /// The value the native library assigns to this flag.
    pub fn value(&self) -> (r: u32)
        ensures
            r == spec_virdomainxmlflags_value(*self),
    {
        match self {
            VirDomainXMLFlags::VirDomainXMLSecure => 1,
            VirDomainXMLFlags::VirDomainXMLInactive => 2,
            VirDomainXMLFlags::VirDomainXMLUpdateCPU => 4,
            VirDomainXMLFlags::VirDomainXMLMigratable => 8,
        }
    }
}

/// How a domain is started.
#[derive(Clone, Copy, Debug, PartialEq, Eq, Structural)]
pub enum VirDomainCreateFlags {
    /// Default behavior
    VirDomainNone,
    /// Launch guest in paused state
    VirDomainStartPaused,
    /// Automatically kill guest when virConnectPtr is closed
    VirDomainStartAutodestroy,
    /// Avoid file system cache pollution
    VirDomainStartBypassCache,
    /// Boot, discarding any managed save
    VirDomainStartForceBoot,
    /// Validate the XML document against schema
    VirDomainStartValidate,
    /// Re-initialize NVRAM from template
    VirDomainStartResetNvram,
}

/// The native value of a `VirDomainCreateFlags` flag.
pub open spec fn spec_virdomaincreateflags_value(f: VirDomainCreateFlags) -> u32 {
    match f {
        VirDomainCreateFlags::VirDomainNone => 0u32,
        VirDomainCreateFlags::VirDomainStartPaused => 1u32,
        VirDomainCreateFlags::VirDomainStartAutodestroy => 2u32,
        VirDomainCreateFlags::VirDomainStartBypassCache => 4u32,
        VirDomainCreateFlags::VirDomainStartForceBoot => 8u32,
        VirDomainCreateFlags::VirDomainStartValidate => 16u32,
        VirDomainCreateFlags::VirDomainStartResetNvram => 32u32,
    }
}

impl VirDomainCreateFlags {
    /// The value the native library assigns to this flag.
    pub fn value(&self) -> (r: u32)
        ensures
            r == spec_virdomaincreateflags_value(*self),
    {
        match self {
            VirDomainCreateFlags::VirDomainNone => 0,
            VirDomainCreateFlags::VirDomainStartPaused => 1,
            VirDomainCreateFlags::VirDomainStartAutodestroy => 2,
            VirDomainCreateFlags::VirDomainStartBypassCache => 4,
            VirDomainCreateFlags::VirDomainStartForceBoot => 8,
            VirDomainCreateFlags::VirDomainStartValidate => 16,
            VirDomainCreateFlags::VirDomainStartResetNvram => 32,
        }
    }
}

/// How a domain definition is validated.
#[derive(Clone, Copy, Debug, PartialEq, Eq, Structural)]
pub enum VirDomainDefineFlags {
    /// Validate the XML document against schema
    VirDomainDefineValidate,
}

/// The native value of a `VirDomainDefineFlags` flag.
pub open spec fn spec_virdomaindefineflags_value(f: VirDomainDefineFlags) -> u32 {
    match f {
        VirDomainDefineFlags::VirDomainDefineValidate => 1u32,
    }
}

impl VirDomainDefineFlags {
    /// The value the native library assigns to this flag.
    pub fn value(&self) -> (r: u32)
        ensures
            r == spec_virdomaindefineflags_value(*self),
    {
        match self {
            VirDomainDefineFlags::VirDomainDefineValidate => 1,
        }
    }
}

/// How a domain is destroyed.
#[derive(Clone, Copy, Debug, PartialEq, Eq, Structural)]
pub enum VirDomainDestroyFlags {
    /// Default behavior - could lead to data loss!!
    VirDomainDestroyDefault,
    /// Only SIGTERM, no SIGKILL
    VirDomainDestroyGraceful,
    /// Remove VM logs on destroy
    VirDomainDestroyRemoveLogs,
}

/// The native value of a `VirDomainDestroyFlags` flag.
pub open spec fn spec_virdomaindestroyflags_value(f: VirDomainDestroyFlags) -> u32 {
    match f {
        VirDomainDestroyFlags::VirDomainDestroyDefault => 0u32,
        VirDomainDestroyFlags::VirDomainDestroyGraceful => 1u32,
        VirDomainDestroyFlags::VirDomainDestroyRemoveLogs => 2u32,
    }
}

impl VirDomainDestroyFlags {
    /// The value the native library assigns to this flag.
    pub fn value(&self) -> (r: u32)
        ensures
            r == spec_virdomaindestroyflags_value(*self),
    {
        match self {
            VirDomainDestroyFlags::VirDomainDestroyDefault => 0,
            VirDomainDestroyFlags::VirDomainDestroyGraceful => 1,
            VirDomainDestroyFlags::VirDomainDestroyRemoveLogs => 2,
        }
    }
}

/// How a domain is rebooted.
#[derive(Clone, Copy, Debug, PartialEq, Eq, Structural)]
pub enum VirDomainRebootFlag {
    /// Hypervisor choice
    VirDomainRebootDefault,
    /// Send ACPI event
    VirDomainRebootAcpiPowerBtn,
    /// Use guest agent
    VirDomainRebootGuestAgent,
    /// Use initctl
    VirDomainRebootInitctl,
    /// Send a signal
    VirDomainRebootSignal,
    /// Use paravirt guest control
    VirDomainRebootParavirt,
}

/// The native value of a `VirDomainRebootFlag` flag.
pub open spec fn spec_virdomainrebootflag_value(f: VirDomainRebootFlag) -> u32 {
    match f {
        VirDomainRebootFlag::VirDomainRebootDefault => 0u32,
        VirDomainRebootFlag::VirDomainRebootAcpiPowerBtn => 1u32,
        VirDomainRebootFlag::VirDomainRebootGuestAgent => 2u32,
        VirDomainRebootFlag::VirDomainRebootInitctl => 4u32,
        VirDomainRebootFlag::VirDomainRebootSignal => 8u32,
        VirDomainRebootFlag::VirDomainRebootParavirt => 16u32,
    }
}

impl VirDomainRebootFlag {
    /// The value the native library assigns to this flag.
    pub fn value(&self) -> (r: u32)
        ensures
            r == spec_virdomainrebootflag_value(*self),
    {
        match self {
            VirDomainRebootFlag::VirDomainRebootDefault => 0,
            VirDomainRebootFlag::VirDomainRebootAcpiPowerBtn => 1,
            VirDomainRebootFlag::VirDomainRebootGuestAgent => 2,
            VirDomainRebootFlag::VirDomainRebootInitctl => 4,
            VirDomainRebootFlag::VirDomainRebootSignal => 8,
            VirDomainRebootFlag::VirDomainRebootParavirt => 16,
        }
    }
}

/// What an undefine also removes or keeps.
#[derive(Clone, Copy, Debug, PartialEq, Eq, Structural)]
pub enum VirDomainUndefineFlags {
    /// Also remove any managed save
    VirDomainUndefineManagedSave,
    /// If last use of domain, then also remove any snapshot metadata
    VirDomainUndefineSnapshotsMetadata,
    /// Also remove any nvram file
    VirDomainUndefineNvram,
    /// Keep nvram file
    VirDomainUndefineKeepNvram,
    /// If last use of domain, then also remove any checkpoint metadata
    VirDomainUndefineCheckpointsMetadata,
    /// Also remove any TPM state
    VirDomainUndefineTpm,
    /// Keep TPM state
    VirDomainUndefineKeepTpm,
}

/// The native value of a `VirDomainUndefineFlags` flag.
pub open spec fn spec_virdomainundefineflags_value(f: VirDomainUndefineFlags) -> u32 {
    match f {
        VirDomainUndefineFlags::VirDomainUndefineManagedSave => 1u32,
        VirDomainUndefineFlags::VirDomainUndefineSnapshotsMetadata => 2u32,
        VirDomainUndefineFlags::VirDomainUndefineNvram => 4u32,
        VirDomainUndefineFlags::VirDomainUndefineKeepNvram => 8u32,
        VirDomainUndefineFlags::VirDomainUndefineCheckpointsMetadata => 16u32,
        VirDomainUndefineFlags::VirDomainUndefineTpm => 32u32,
        VirDomainUndefineFlags::VirDomainUndefineKeepTpm => 64u32,
    }
}

impl VirDomainUndefineFlags {
    /// The value the native library assigns to this flag.
    pub fn value(&self) -> (r: u32)
        ensures
            r == spec_virdomainundefineflags_value(*self),
    {
        match self {
            VirDomainUndefineFlags::VirDomainUndefineManagedSave => 1,
            VirDomainUndefineFlags::VirDomainUndefineSnapshotsMetadata => 2,
            VirDomainUndefineFlags::VirDomainUndefineNvram => 4,
            VirDomainUndefineFlags::VirDomainUndefineKeepNvram => 8,
            VirDomainUndefineFlags::VirDomainUndefineCheckpointsMetadata => 16,
            VirDomainUndefineFlags::VirDomainUndefineTpm => 32,
            VirDomainUndefineFlags::VirDomainUndefineKeepTpm => 64,
        }
    }
}

/// Which domain state a change touches.
#[derive(Clone, Copy, Debug, PartialEq, Eq, Structural)]
pub enum VirDomainModificationImpact {
    /// Affect current domain state
    VirDomainAffectCurrent,
    /// Affect running domain state
    VirDomainAffectLive,
    /// Affect persistent domain state
    VirDomainAffectConfig,
}

/// The native value of a `VirDomainModificationImpact` flag.
pub open spec fn spec_virdomainmodificationimpact_value(f: VirDomainModificationImpact) -> u32 {
    match f {
        VirDomainModificationImpact::VirDomainAffectCurrent => 0u32,
        VirDomainModificationImpact::VirDomainAffectLive => 1u32,
        VirDomainModificationImpact::VirDomainAffectConfig => 2u32,
    }
}

impl VirDomainModificationImpact {
    /// The value the native library assigns to this flag.
    pub fn value(&self) -> (r: u32)
        ensures
            r == spec_virdomainmodificationimpact_value(*self),
    {
        match self {
            VirDomainModificationImpact::VirDomainAffectCurrent => 0,
            VirDomainModificationImpact::VirDomainAffectLive => 1,
            VirDomainModificationImpact::VirDomainAffectConfig => 2,
        }
    }
}

/// Which memory setting a change touches.
#[derive(Clone, Copy, Debug, PartialEq, Eq, Structural)]
pub enum VirDomainMemoryModFlags {
    /// See virDomainModificationImpact
    VirDomainMemConfig,
    /// See virDomainModificationImpact
    VirDomainMemCurrent,
    /// See virDomainModificationImpact
    VirDomainMemLive,
    /// Affect Max rather than current
    VirDomainMemMaximum,
}

/// The native value of a `VirDomainMemoryModFlags` flag.
pub open spec fn spec_virdomainmemorymodflags_value(f: VirDomainMemoryModFlags) -> u32 {
    match f {
        VirDomainMemoryModFlags::VirDomainMemConfig => 2u32,
        VirDomainMemoryModFlags::VirDomainMemCurrent => 0u32,
        VirDomainMemoryModFlags::VirDomainMemLive => 1u32,
        VirDomainMemoryModFlags::VirDomainMemMaximum => 4u32,
    }
}

impl VirDomainMemoryModFlags {
    /// The value the native library assigns to this flag.
    pub fn value(&self) -> (r: u32)
        ensures
            r == spec_virdomainmemorymodflags_value(*self),
    {
        match self {
            VirDomainMemoryModFlags::VirDomainMemConfig => 2,
            VirDomainMemoryModFlags::VirDomainMemCurrent => 0,
            VirDomainMemoryModFlags::VirDomainMemLive => 1,
            VirDomainMemoryModFlags::VirDomainMemMaximum => 4,
        }
    }
}

/// How a storage pool is created and built.
#[derive(Clone, Copy, Debug, PartialEq, Eq, Structural)]
pub enum VirStoragePoolCreateFlags {
    /// Default behavior
    VirStoragePoolCreateNormal,
    /// Create pool from XML, build it
    VirStoragePoolCreateWithBuild,
    /// Create pool from XML, build it and overwrite if exists
    VirStoragePoolCreateWithBuildOverwrite,
    /// Create pool from XML, build it and do not overwrite if exists
    VirStoragePoolCreateWithBuildNoOverwrite,
}

/// The native value of a `VirStoragePoolCreateFlags` flag.
pub open spec fn spec_virstoragepoolcreateflags_value(f: VirStoragePoolCreateFlags) -> u32 {
    match f {
        VirStoragePoolCreateFlags::VirStoragePoolCreateNormal => 0u32,
        VirStoragePoolCreateFlags::VirStoragePoolCreateWithBuild => 1u32,
        VirStoragePoolCreateFlags::VirStoragePoolCreateWithBuildOverwrite => 2u32,
        VirStoragePoolCreateFlags::VirStoragePoolCreateWithBuildNoOverwrite => 4u32,
    }
}

impl VirStoragePoolCreateFlags {
    /// The value the native library assigns to this flag.
    pub fn value(&self) -> (r: u32)
        ensures
            r == spec_virstoragepoolcreateflags_value(*self),
    {
        match self {
            VirStoragePoolCreateFlags::VirStoragePoolCreateNormal => 0,
            VirStoragePoolCreateFlags::VirStoragePoolCreateWithBuild => 1,
            VirStoragePoolCreateFlags::VirStoragePoolCreateWithBuildOverwrite => 2,
            VirStoragePoolCreateFlags::VirStoragePoolCreateWithBuildNoOverwrite => 4,
        }
    }
}

/// What a storage XML dump includes.
#[derive(Clone, Copy, Debug, PartialEq, Eq, Structural)]
pub enum VirStorageXMLFlags {
    /// Inactive
    VirStorageXMLInactive,
}

/// The native value of a `VirStorageXMLFlags` flag.
pub open spec fn spec_virstoragexmlflags_value(f: VirStorageXMLFlags) -> u32 {
    match f {
        VirStorageXMLFlags::VirStorageXMLInactive => 1u32,
    }
}

impl VirStorageXMLFlags {
    /// The value the native library assigns to this flag.
    pub fn value(&self) -> (r: u32)
        ensures
            r == spec_virstoragexmlflags_value(*self),
    {
        match self {
            VirStorageXMLFlags::VirStorageXMLInactive => 1,
        }
    }
}

} // verus!

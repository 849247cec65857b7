use libvirt_node::error::{Error, ErrorDomain, ErrorLevel, ErrorNumber};
use libvirt_node::flags::{
    VirDomainCreateFlags, VirDomainDestroyFlags, VirDomainGetHostnameFlags,
    VirDomainMemoryModFlags, VirDomainModificationImpact, VirDomainRebootFlag,
    VirDomainUndefineFlags, VirDomainXMLFlags, VirStoragePoolCreateFlags, VirStorageXMLFlags,
    VirDomainDefineFlags,
};

#[test]
fn error_level_codes() {
    assert_eq!(ErrorLevel::NoError.code(), 0);
    assert_eq!(ErrorLevel::Warning.code(), 1);
    assert_eq!(ErrorLevel::Error.code(), 2);
    assert_eq!(ErrorLevel::from_code(1), Some(ErrorLevel::Warning));
    assert_eq!(ErrorLevel::from_code(3), None);
}

#[test]
fn error_domain_codes() {
    assert_eq!(ErrorDomain::NoError.code(), 0);
    assert_eq!(ErrorDomain::Xen.code(), 1);
    assert_eq!(ErrorDomain::Qemu.code(), 10);
    assert_eq!(ErrorDomain::Ch.code(), 72);
    assert_eq!(ErrorDomain::Last.code(), 73);
    assert_eq!(ErrorDomain::from_code(10), Some(ErrorDomain::Qemu));
    assert_eq!(ErrorDomain::from_code(74), None);
}

#[test]
fn error_number_codes() {
    assert_eq!(ErrorNumber::NoError.code(), 0);
    assert_eq!(ErrorNumber::InternalError.code(), 1);
    assert_eq!(ErrorNumber::NoDomain.code(), 42);
    assert_eq!(ErrorNumber::Overflow.code(), 82);
    assert_eq!(ErrorNumber::Last.code(), 112);
    assert_eq!(ErrorNumber::from_code(42), Some(ErrorNumber::NoDomain));
    assert_eq!(ErrorNumber::from_code(113), None);
}

#[test]
fn error_codes_round_trip() {
    // the numbering is faithful: every case comes back from its own code
    for c in 0u32..=112u32 {
        let e = ErrorNumber::from_code(c).unwrap();
        assert_eq!(e.code(), c);
    }
    for c in 0u32..=73u32 {
        let e = ErrorDomain::from_code(c).unwrap();
        assert_eq!(e.code(), c);
    }
}

#[test]
fn error_record_passes_fields_through() {
    let e = Error::last_error(42, 10, "Domain not found: no domain".to_string(), 2);
    assert_eq!(e.code, 42);
    assert_eq!(e.domain, 10);
    assert_eq!(e.message, "Domain not found: no domain");
    assert_eq!(e.level, 2);
}

#[test]
fn hostname_flag_values() {
    assert_eq!(VirDomainGetHostnameFlags::VirDomainGetHostnameLease.value(), 1);
    assert_eq!(VirDomainGetHostnameFlags::VirDomainGetHostnameAgent.value(), 2);
}

#[test]
fn xml_flag_values() {
    assert_eq!(VirDomainXMLFlags::VirDomainXMLSecure.value(), 1);
    assert_eq!(VirDomainXMLFlags::VirDomainXMLInactive.value(), 2);
    assert_eq!(VirDomainXMLFlags::VirDomainXMLUpdateCPU.value(), 4);
    assert_eq!(VirDomainXMLFlags::VirDomainXMLMigratable.value(), 8);
}

#[test]
fn create_flag_values() {
    assert_eq!(VirDomainCreateFlags::VirDomainNone.value(), 0);
    assert_eq!(VirDomainCreateFlags::VirDomainStartPaused.value(), 1);
    assert_eq!(VirDomainCreateFlags::VirDomainStartResetNvram.value(), 32);
}

#[test]
fn define_and_destroy_flag_values() {
    assert_eq!(VirDomainDefineFlags::VirDomainDefineValidate.value(), 1);
    assert_eq!(VirDomainDestroyFlags::VirDomainDestroyDefault.value(), 0);
    assert_eq!(VirDomainDestroyFlags::VirDomainDestroyGraceful.value(), 1);
    assert_eq!(VirDomainDestroyFlags::VirDomainDestroyRemoveLogs.value(), 2);
}

#[test]
fn reboot_flag_values() {
    assert_eq!(VirDomainRebootFlag::VirDomainRebootDefault.value(), 0);
    assert_eq!(VirDomainRebootFlag::VirDomainRebootAcpiPowerBtn.value(), 1);
    assert_eq!(VirDomainRebootFlag::VirDomainRebootGuestAgent.value(), 2);
    assert_eq!(VirDomainRebootFlag::VirDomainRebootInitctl.value(), 4);
    assert_eq!(VirDomainRebootFlag::VirDomainRebootSignal.value(), 8);
    assert_eq!(VirDomainRebootFlag::VirDomainRebootParavirt.value(), 16);
}

#[test]
fn undefine_flag_values() {
    assert_eq!(VirDomainUndefineFlags::VirDomainUndefineManagedSave.value(), 1);
    assert_eq!(VirDomainUndefineFlags::VirDomainUndefineKeepTpm.value(), 64);
}

#[test]
fn impact_and_memory_flag_values() {
    assert_eq!(VirDomainModificationImpact::VirDomainAffectCurrent.value(), 0);
    assert_eq!(VirDomainModificationImpact::VirDomainAffectLive.value(), 1);
    assert_eq!(VirDomainModificationImpact::VirDomainAffectConfig.value(), 2);
    assert_eq!(VirDomainMemoryModFlags::VirDomainMemCurrent.value(), 0);
    assert_eq!(VirDomainMemoryModFlags::VirDomainMemLive.value(), 1);
    assert_eq!(VirDomainMemoryModFlags::VirDomainMemConfig.value(), 2);
    assert_eq!(VirDomainMemoryModFlags::VirDomainMemMaximum.value(), 4);
}

#[test]
fn storage_flag_values() {
    assert_eq!(VirStoragePoolCreateFlags::VirStoragePoolCreateNormal.value(), 0);
    assert_eq!(VirStoragePoolCreateFlags::VirStoragePoolCreateWithBuildNoOverwrite.value(), 4);
    assert_eq!(VirStorageXMLFlags::VirStorageXMLInactive.value(), 1);
}

//! The error surface of the native library: the level, origin and
//! number of a reported error, and the error record handed onward.
//!
//! The native library numbers these cases; the numbering here follows it
//! case by case, stated by `code` and inverted by `from_code`.

use vstd::prelude::*;

verus! {

/// How grave a reported error is.
#[derive(Clone, Copy, Debug, PartialEq, Eq, Structural)]
pub enum ErrorLevel {
    /// No error.
    NoError,
    /// A simple warning.
    Warning,
    /// An error.
    Error,
}

/// The numeric code of a `ErrorLevel`, as the native library numbers them.
pub open spec fn spec_level(e: ErrorLevel) -> u32 {
    match e {
        ErrorLevel::NoError => 0u32,
        ErrorLevel::Warning => 1u32,
        ErrorLevel::Error => 2u32,
    }
}

/// The `ErrorLevel` a numeric code names, if any.
pub open spec fn spec_level_back(c: u32) -> Option<ErrorLevel> {
    if c == 0 {
        Some(ErrorLevel::NoError)
    } else if c == 1 {
        Some(ErrorLevel::Warning)
    } else if c == 2 {
        Some(ErrorLevel::Error)
    } else {
        None
    }
}

impl ErrorLevel {
    /// The numeric code the native library uses for this case.
    pub fn code(&self) -> (r: u32)
        ensures
            r == spec_level(*self),
    {
        match self {
            ErrorLevel::NoError => 0,
            ErrorLevel::Warning => 1,
            ErrorLevel::Error => 2,
        }
    }

    /// The case a numeric code names, `None` for an unassigned code.
    pub fn from_code(c: u32) -> (r: Option<ErrorLevel>)
        ensures
            r == spec_level_back(c),
    {
        if c == 0 {
            Some(ErrorLevel::NoError)
        } else if c == 1 {
            Some(ErrorLevel::Warning)
        } else if c == 2 {
            Some(ErrorLevel::Error)
        } else {
            None
        }
    }
}

/// Law: the numbering of `ErrorLevel` is faithful — every case is
/// recovered from its own code, so no two cases share one.
pub proof fn lemma_level_round_trip(e: ErrorLevel)
    ensures
        spec_level_back(spec_level(e)) == Some(e),
{
}
/// Where a reported error originated.
#[derive(Clone, Copy, Debug, PartialEq, Eq, Structural)]
pub enum ErrorDomain {
    /// No error.
    NoError,
    /// Error at Xen hypervisor layer
    Xen,
    /// Error at connection with xend daemon
    Xend,
    /// Error at connection with xen store
    XenStore,
    /// Error in the S-Expression code
    SExpr,
    /// Error in the XML code
    Xml,
    /// Error when operating on a domain
    Dom,
    /// Error in the XML-RPC code
    Rpc,
    /// Error in the proxy code; unused since 0.8.6
    Proxy,
    /// Error in the configuration file handling
    Conf,
    /// Error at the QEMU daemon
    Qemu,
    /// Error when operating on a network
    Net,
    /// Error from test driver
    Test,
    /// Error from remote driver
    Remote,
    /// Error from OpenVZ driver
    OpenVz,
    /// Error at Xen XM layer
    XenXm,
    /// Error in the Linux Stats code
    StatsLinux,
    /// Error from Linux Container driver
    Lxc,
    /// Error from storage driver
    Storage,
    /// Error from network config
    Network,
    /// Error from domain config
    Domain,
    /// Error at the UML driver; unused since 5.0.0
    Uml,
    /// Error from node device monitor
    Nodedev,
    /// Error from xen inotify layer
    XenINotify,
    /// Error from security framework
    Security,
    /// Error from VirtualBox driver
    VBox,
    /// Error when operating on an interface
    Interface,
    /// The OpenNebula driver no longer exists. Retained for ABI/API compat only
    ONe,
    /// Error from ESX driver
    Esx,
    /// Error from the phyp driver, unused since 6.0.0
    Phyp,
    /// Error from secret storage
    Secret,
    /// Error from CPU driver
    Cpu,
    /// Error from XenAPI
    XenApi,
    /// Error from network filter driver
    Nwfilter,
    /// Error from Synchronous hooks
    Hook,
    /// Error from domain snapshot
    DomainSnapshot,
    /// Error from auditing subsystem
    Audit,
    /// Error from sysinfo/SMBIOS
    SysInfo,
    /// Error from I/O streams
    Streams,
    /// Error from VMware driver
    Vmware,
    /// Error from event loop impl
    Event,
    /// Error from libxenlight driver
    Libxl,
    /// Error from lock manager
    Locking,
    /// Error from Hyper-V driver
    HyperV,
    /// Error from capabilities
    Capabilities,
    /// Error from URI handling
    Uri,
    /// Error from auth handling
    Auth,
    /// Error from DBus
    Dbus,
    /// Error from Parallels
    Parallels,
    /// Error from Device
    Device,
    /// Error from libssh2 connection transport
    Ssh,
    /// Error from lockspace
    Lockspace,
    /// Error from initctl device communication
    Initctl,
    /// Error from identity code
    Identity,
    /// Error from cgroups
    Cgroup,
    /// Error from access control manager
    Access,
    /// Error from systemd code
    Systemd,
    /// Error from bhyve driver
    Bhyve,
    /// Error from crypto code
    Crypto,
    /// Error from firewall
    Firewall,
    /// Error from polkit code
    Polkit,
    /// Error from thread utils
    Thread,
    /// Error from admin backend
    Admin,
    /// Error from log manager
    Logging,
    /// Error from Xen xl config code
    XenXl,
    /// Error from perf
    Perf,
    /// Error from libssh connection transport
    Libssh,
    /// Error from resource control
    ResCtrl,
    /// Error from firewalld
    Firewalld,
    /// Error from domain checkpoint
    DomainCheckpoint,
    /// Error from TPM
    Tpm,
    /// Error from BPF code
    Bpf,
    /// Error from Cloud Hypervisor driver
    Ch,
    /// Indicates an error domain not yet supported by the Rust bindings
    Last,
}

/// The numeric code of a `ErrorDomain`, as the native library numbers them.
pub open spec fn spec_domain(e: ErrorDomain) -> u32 {
    match e {
        ErrorDomain::NoError => 0u32,
        ErrorDomain::Xen => 1u32,
        ErrorDomain::Xend => 2u32,
        ErrorDomain::XenStore => 3u32,
        ErrorDomain::SExpr => 4u32,
        ErrorDomain::Xml => 5u32,
        ErrorDomain::Dom => 6u32,
        ErrorDomain::Rpc => 7u32,
        ErrorDomain::Proxy => 8u32,
        ErrorDomain::Conf => 9u32,
        ErrorDomain::Qemu => 10u32,
        ErrorDomain::Net => 11u32,
        ErrorDomain::Test => 12u32,
        ErrorDomain::Remote => 13u32,
        ErrorDomain::OpenVz => 14u32,
        ErrorDomain::XenXm => 15u32,
        ErrorDomain::StatsLinux => 16u32,
        ErrorDomain::Lxc => 17u32,
        ErrorDomain::Storage => 18u32,
        ErrorDomain::Network => 19u32,
        ErrorDomain::Domain => 20u32,
        ErrorDomain::Uml => 21u32,
        ErrorDomain::Nodedev => 22u32,
        ErrorDomain::XenINotify => 23u32,
        ErrorDomain::Security => 24u32,
        ErrorDomain::VBox => 25u32,
        ErrorDomain::Interface => 26u32,
        ErrorDomain::ONe => 27u32,
        ErrorDomain::Esx => 28u32,
        ErrorDomain::Phyp => 29u32,
        ErrorDomain::Secret => 30u32,
        ErrorDomain::Cpu => 31u32,
        ErrorDomain::XenApi => 32u32,
        ErrorDomain::Nwfilter => 33u32,
        ErrorDomain::Hook => 34u32,
        ErrorDomain::DomainSnapshot => 35u32,
        ErrorDomain::Audit => 36u32,
        ErrorDomain::SysInfo => 37u32,
        ErrorDomain::Streams => 38u32,
        ErrorDomain::Vmware => 39u32,
        ErrorDomain::Event => 40u32,
        ErrorDomain::Libxl => 41u32,
        ErrorDomain::Locking => 42u32,
        ErrorDomain::HyperV => 43u32,
        ErrorDomain::Capabilities => 44u32,
        ErrorDomain::Uri => 45u32,
        ErrorDomain::Auth => 46u32,
        ErrorDomain::Dbus => 47u32,
        ErrorDomain::Parallels => 48u32,
        ErrorDomain::Device => 49u32,
        ErrorDomain::Ssh => 50u32,
        ErrorDomain::Lockspace => 51u32,
        ErrorDomain::Initctl => 52u32,
        ErrorDomain::Identity => 53u32,
        ErrorDomain::Cgroup => 54u32,
        ErrorDomain::Access => 55u32,
        ErrorDomain::Systemd => 56u32,
        ErrorDomain::Bhyve => 57u32,
        ErrorDomain::Crypto => 58u32,
        ErrorDomain::Firewall => 59u32,
        ErrorDomain::Polkit => 60u32,
        ErrorDomain::Thread => 61u32,
        ErrorDomain::Admin => 62u32,
        ErrorDomain::Logging => 63u32,
        ErrorDomain::XenXl => 64u32,
        ErrorDomain::Perf => 65u32,
        ErrorDomain::Libssh => 66u32,
        ErrorDomain::ResCtrl => 67u32,
        ErrorDomain::Firewalld => 68u32,
        ErrorDomain::DomainCheckpoint => 69u32,
        ErrorDomain::Tpm => 70u32,
        ErrorDomain::Bpf => 71u32,
        ErrorDomain::Ch => 72u32,
        ErrorDomain::Last => 73u32,
    }
}

/// The `ErrorDomain` a numeric code names, if any.
pub open spec fn spec_domain_back(c: u32) -> Option<ErrorDomain> {
    if c == 0 {
        Some(ErrorDomain::NoError)
    } else if c == 1 {
        Some(ErrorDomain::Xen)
    } else if c == 2 {
        Some(ErrorDomain::Xend)
    } else if c == 3 {
        Some(ErrorDomain::XenStore)
    } else if c == 4 {
        Some(ErrorDomain::SExpr)
    } else if c == 5 {
        Some(ErrorDomain::Xml)
    } else if c == 6 {
        Some(ErrorDomain::Dom)
    } else if c == 7 {
        Some(ErrorDomain::Rpc)
    } else if c == 8 {
        Some(ErrorDomain::Proxy)
    } else if c == 9 {
        Some(ErrorDomain::Conf)
    } else if c == 10 {
        Some(ErrorDomain::Qemu)
    } else if c == 11 {
        Some(ErrorDomain::Net)
    } else if c == 12 {
        Some(ErrorDomain::Test)
    } else if c == 13 {
        Some(ErrorDomain::Remote)
    } else if c == 14 {
        Some(ErrorDomain::OpenVz)
    } else if c == 15 {
        Some(ErrorDomain::XenXm)
    } else if c == 16 {
        Some(ErrorDomain::StatsLinux)
    } else if c == 17 {
        Some(ErrorDomain::Lxc)
    } else if c == 18 {
        Some(ErrorDomain::Storage)
    } else if c == 19 {
        Some(ErrorDomain::Network)
    } else if c == 20 {
        Some(ErrorDomain::Domain)
    } else if c == 21 {
        Some(ErrorDomain::Uml)
    } else if c == 22 {
        Some(ErrorDomain::Nodedev)
    } else if c == 23 {
        Some(ErrorDomain::XenINotify)
    } else if c == 24 {
        Some(ErrorDomain::Security)
    } else if c == 25 {
        Some(ErrorDomain::VBox)
    } else if c == 26 {
        Some(ErrorDomain::Interface)
    } else if c == 27 {
        Some(ErrorDomain::ONe)
    } else if c == 28 {
        Some(ErrorDomain::Esx)
    } else if c == 29 {
        Some(ErrorDomain::Phyp)
    } else if c == 30 {
        Some(ErrorDomain::Secret)
    } else if c == 31 {
        Some(ErrorDomain::Cpu)
    } else if c == 32 {
        Some(ErrorDomain::XenApi)
    } else if c == 33 {
        Some(ErrorDomain::Nwfilter)
    } else if c == 34 {
        Some(ErrorDomain::Hook)
    } else if c == 35 {
        Some(ErrorDomain::DomainSnapshot)
    } else if c == 36 {
        Some(ErrorDomain::Audit)
    } else if c == 37 {
        Some(ErrorDomain::SysInfo)
    } else if c == 38 {
        Some(ErrorDomain::Streams)
    } else if c == 39 {
        Some(ErrorDomain::Vmware)
    } else if c == 40 {
        Some(ErrorDomain::Event)
    } else if c == 41 {
        Some(ErrorDomain::Libxl)
    } else if c == 42 {
        Some(ErrorDomain::Locking)
    } else if c == 43 {
        Some(ErrorDomain::HyperV)
    } else if c == 44 {
        Some(ErrorDomain::Capabilities)
    } else if c == 45 {
        Some(ErrorDomain::Uri)
    } else if c == 46 {
        Some(ErrorDomain::Auth)
    } else if c == 47 {
        Some(ErrorDomain::Dbus)
    } else if c == 48 {
        Some(ErrorDomain::Parallels)
    } else if c == 49 {
        Some(ErrorDomain::Device)
    } else if c == 50 {
        Some(ErrorDomain::Ssh)
    } else if c == 51 {
        Some(ErrorDomain::Lockspace)
    } else if c == 52 {
        Some(ErrorDomain::Initctl)
    } else if c == 53 {
        Some(ErrorDomain::Identity)
    } else if c == 54 {
        Some(ErrorDomain::Cgroup)
    } else if c == 55 {
        Some(ErrorDomain::Access)
    } else if c == 56 {
        Some(ErrorDomain::Systemd)
    } else if c == 57 {
        Some(ErrorDomain::Bhyve)
    } else if c == 58 {
        Some(ErrorDomain::Crypto)
    } else if c == 59 {
        Some(ErrorDomain::Firewall)
    } else if c == 60 {
        Some(ErrorDomain::Polkit)
    } else if c == 61 {
        Some(ErrorDomain::Thread)
    } else if c == 62 {
        Some(ErrorDomain::Admin)
    } else if c == 63 {
        Some(ErrorDomain::Logging)
    } else if c == 64 {
        Some(ErrorDomain::XenXl)
    } else if c == 65 {
        Some(ErrorDomain::Perf)
    } else if c == 66 {
        Some(ErrorDomain::Libssh)
    } else if c == 67 {
        Some(ErrorDomain::ResCtrl)
    } else if c == 68 {
        Some(ErrorDomain::Firewalld)
    } else if c == 69 {
        Some(ErrorDomain::DomainCheckpoint)
    } else if c == 70 {
        Some(ErrorDomain::Tpm)
    } else if c == 71 {
        Some(ErrorDomain::Bpf)
    } else if c == 72 {
        Some(ErrorDomain::Ch)
    } else if c == 73 {
        Some(ErrorDomain::Last)
    } else {
        None
    }
}

impl ErrorDomain {
    /// The numeric code the native library uses for this case.
    pub fn code(&self) -> (r: u32)
        ensures
            r == spec_domain(*self),
    {
        match self {
            ErrorDomain::NoError => 0,
            ErrorDomain::Xen => 1,
            ErrorDomain::Xend => 2,
            ErrorDomain::XenStore => 3,
            ErrorDomain::SExpr => 4,
            ErrorDomain::Xml => 5,
            ErrorDomain::Dom => 6,
            ErrorDomain::Rpc => 7,
            ErrorDomain::Proxy => 8,
            ErrorDomain::Conf => 9,
            ErrorDomain::Qemu => 10,
            ErrorDomain::Net => 11,
            ErrorDomain::Test => 12,
            ErrorDomain::Remote => 13,
            ErrorDomain::OpenVz => 14,
            ErrorDomain::XenXm => 15,
            ErrorDomain::StatsLinux => 16,
            ErrorDomain::Lxc => 17,
            ErrorDomain::Storage => 18,
            ErrorDomain::Network => 19,
            ErrorDomain::Domain => 20,
            ErrorDomain::Uml => 21,
            ErrorDomain::Nodedev => 22,
            ErrorDomain::XenINotify => 23,
            ErrorDomain::Security => 24,
            ErrorDomain::VBox => 25,
            ErrorDomain::Interface => 26,
            ErrorDomain::ONe => 27,
            ErrorDomain::Esx => 28,
            ErrorDomain::Phyp => 29,
            ErrorDomain::Secret => 30,
            ErrorDomain::Cpu => 31,
            ErrorDomain::XenApi => 32,
            ErrorDomain::Nwfilter => 33,
            ErrorDomain::Hook => 34,
            ErrorDomain::DomainSnapshot => 35,
            ErrorDomain::Audit => 36,
            ErrorDomain::SysInfo => 37,
            ErrorDomain::Streams => 38,
            ErrorDomain::Vmware => 39,
            ErrorDomain::Event => 40,
            ErrorDomain::Libxl => 41,
            ErrorDomain::Locking => 42,
            ErrorDomain::HyperV => 43,
            ErrorDomain::Capabilities => 44,
            ErrorDomain::Uri => 45,
            ErrorDomain::Auth => 46,
            ErrorDomain::Dbus => 47,
            ErrorDomain::Parallels => 48,
            ErrorDomain::Device => 49,
            ErrorDomain::Ssh => 50,
            ErrorDomain::Lockspace => 51,
            ErrorDomain::Initctl => 52,
            ErrorDomain::Identity => 53,
            ErrorDomain::Cgroup => 54,
            ErrorDomain::Access => 55,
            ErrorDomain::Systemd => 56,
            ErrorDomain::Bhyve => 57,
            ErrorDomain::Crypto => 58,
            ErrorDomain::Firewall => 59,
            ErrorDomain::Polkit => 60,
            ErrorDomain::Thread => 61,
            ErrorDomain::Admin => 62,
            ErrorDomain::Logging => 63,
            ErrorDomain::XenXl => 64,
            ErrorDomain::Perf => 65,
            ErrorDomain::Libssh => 66,
            ErrorDomain::ResCtrl => 67,
            ErrorDomain::Firewalld => 68,
            ErrorDomain::DomainCheckpoint => 69,
            ErrorDomain::Tpm => 70,
            ErrorDomain::Bpf => 71,
            ErrorDomain::Ch => 72,
            ErrorDomain::Last => 73,
        }
    }

    /// The case a numeric code names, `None` for an unassigned code.
    pub fn from_code(c: u32) -> (r: Option<ErrorDomain>)
        ensures
            r == spec_domain_back(c),
    {
        if c == 0 {
            Some(ErrorDomain::NoError)
        } else if c == 1 {
            Some(ErrorDomain::Xen)
        } else if c == 2 {
            Some(ErrorDomain::Xend)
        } else if c == 3 {
            Some(ErrorDomain::XenStore)
        } else if c == 4 {
            Some(ErrorDomain::SExpr)
        } else if c == 5 {
            Some(ErrorDomain::Xml)
        } else if c == 6 {
            Some(ErrorDomain::Dom)
        } else if c == 7 {
            Some(ErrorDomain::Rpc)
        } else if c == 8 {
            Some(ErrorDomain::Proxy)
        } else if c == 9 {
            Some(ErrorDomain::Conf)
        } else if c == 10 {
            Some(ErrorDomain::Qemu)
        } else if c == 11 {
            Some(ErrorDomain::Net)
        } else if c == 12 {
            Some(ErrorDomain::Test)
        } else if c == 13 {
            Some(ErrorDomain::Remote)
        } else if c == 14 {
            Some(ErrorDomain::OpenVz)
        } else if c == 15 {
            Some(ErrorDomain::XenXm)
        } else if c == 16 {
            Some(ErrorDomain::StatsLinux)
        } else if c == 17 {
            Some(ErrorDomain::Lxc)
        } else if c == 18 {
            Some(ErrorDomain::Storage)
        } else if c == 19 {
            Some(ErrorDomain::Network)
        } else if c == 20 {
            Some(ErrorDomain::Domain)
        } else if c == 21 {
            Some(ErrorDomain::Uml)
        } else if c == 22 {
            Some(ErrorDomain::Nodedev)
        } else if c == 23 {
            Some(ErrorDomain::XenINotify)
        } else if c == 24 {
            Some(ErrorDomain::Security)
        } else if c == 25 {
            Some(ErrorDomain::VBox)
        } else if c == 26 {
            Some(ErrorDomain::Interface)
        } else if c == 27 {
            Some(ErrorDomain::ONe)
        } else if c == 28 {
            Some(ErrorDomain::Esx)
        } else if c == 29 {
            Some(ErrorDomain::Phyp)
        } else if c == 30 {
            Some(ErrorDomain::Secret)
        } else if c == 31 {
            Some(ErrorDomain::Cpu)
        } else if c == 32 {
            Some(ErrorDomain::XenApi)
        } else if c == 33 {
            Some(ErrorDomain::Nwfilter)
        } else if c == 34 {
            Some(ErrorDomain::Hook)
        } else if c == 35 {
            Some(ErrorDomain::DomainSnapshot)
        } else if c == 36 {
            Some(ErrorDomain::Audit)
        } else if c == 37 {
            Some(ErrorDomain::SysInfo)
        } else if c == 38 {
            Some(ErrorDomain::Streams)
        } else if c == 39 {
            Some(ErrorDomain::Vmware)
        } else if c == 40 {
            Some(ErrorDomain::Event)
        } else if c == 41 {
            Some(ErrorDomain::Libxl)
        } else if c == 42 {
            Some(ErrorDomain::Locking)
        } else if c == 43 {
            Some(ErrorDomain::HyperV)
        } else if c == 44 {
            Some(ErrorDomain::Capabilities)
        } else if c == 45 {
            Some(ErrorDomain::Uri)
        } else if c == 46 {
            Some(ErrorDomain::Auth)
        } else if c == 47 {
            Some(ErrorDomain::Dbus)
        } else if c == 48 {
            Some(ErrorDomain::Parallels)
        } else if c == 49 {
            Some(ErrorDomain::Device)
        } else if c == 50 {
            Some(ErrorDomain::Ssh)
        } else if c == 51 {
            Some(ErrorDomain::Lockspace)
        } else if c == 52 {
            Some(ErrorDomain::Initctl)
        } else if c == 53 {
            Some(ErrorDomain::Identity)
        } else if c == 54 {
            Some(ErrorDomain::Cgroup)
        } else if c == 55 {
            Some(ErrorDomain::Access)
        } else if c == 56 {
            Some(ErrorDomain::Systemd)
        } else if c == 57 {
            Some(ErrorDomain::Bhyve)
        } else if c == 58 {
            Some(ErrorDomain::Crypto)
        } else if c == 59 {
            Some(ErrorDomain::Firewall)
        } else if c == 60 {
            Some(ErrorDomain::Polkit)
        } else if c == 61 {
            Some(ErrorDomain::Thread)
        } else if c == 62 {
            Some(ErrorDomain::Admin)
        } else if c == 63 {
            Some(ErrorDomain::Logging)
        } else if c == 64 {
            Some(ErrorDomain::XenXl)
        } else if c == 65 {
            Some(ErrorDomain::Perf)
        } else if c == 66 {
            Some(ErrorDomain::Libssh)
        } else if c == 67 {
            Some(ErrorDomain::ResCtrl)
        } else if c == 68 {
            Some(ErrorDomain::Firewalld)
        } else if c == 69 {
            Some(ErrorDomain::DomainCheckpoint)
        } else if c == 70 {
            Some(ErrorDomain::Tpm)
        } else if c == 71 {
            Some(ErrorDomain::Bpf)
        } else if c == 72 {
            Some(ErrorDomain::Ch)
        } else if c == 73 {
            Some(ErrorDomain::Last)
        } else {
            None
        }
    }
}

/// Law: the numbering of `ErrorDomain` is faithful — every case is
/// recovered from its own code, so no two cases share one.
pub proof fn lemma_domain_round_trip(e: ErrorDomain)
    ensures
        spec_domain_back(spec_domain(e)) == Some(e),
{
}
/// What went wrong, by the native library's own numbering.
#[derive(Clone, Copy, Debug, PartialEq, Eq, Structural)]
pub enum ErrorNumber {
    /// No error.
    NoError,
    /// Internal error
    InternalError,
    /// Memory allocation failure
    NoMemory,
    /// No support for this function
    NoSupport,
    /// Could not resolve hostname
    UnknownHost,
    /// Can't connect to hypervisor
    NoConnect,
    /// Invalid connection object
    InvalidConn,
    /// Invalid domain object
    InvalidDomain,
    /// Invalid function argument
    InvalidArg,
    /// A command to hypervisor failed
    OperationFailed,
    /// A HTTP GET command to failed
    GetFailed,
    /// A HTTP POST command to failed
    PostFailed,
    /// Unexpected HTTP error code
    HttpError,
    /// Failure to serialize an S-Expr
    SExprSerial,
    /// Could not open Xen hypervisor control
    NoXen,
    /// Failure doing an hypervisor call
    XenCall,
    /// Unknown OS type
    OsType,
    /// Missing kernel information
    NoKernel,
    /// Missing root device information
    NoRoot,
    /// Missing source device information
    NoSource,
    /// Missing target device information
    NoTarget,
    /// Missing domain name information
    NoName,
    /// Missing domain OS information
    NoOs,
    /// Missing domain devices information
    NoDevice,
    /// Could not open Xen Store control
    NoXenStore,
    /// Too many drivers registered
    DriverFull,
    /// Not supported by the drivers (DEPRECATED)
    CallFailed,
    /// An XML description is not well formed or broken
    XmlError,
    /// The domain already exist
    DomExist,
    /// Operation forbidden on read-only connections
    OperationDenied,
    /// Failed to open a conf file
    OpenFailed,
    /// Failed to read a conf file
    ReadFailed,
    /// Failed to parse a conf file
    ParseFailed,
    /// Failed to parse the syntax of a conf file
    ConfSyntax,
    /// Failed to write a conf file
    WriteFailed,
    /// Detail of an XML error
    XmlDetail,
    /// Invalid network object
    InvalidNetwork,
    /// The network already exist
    NetworkExist,
    /// General system call failure
    SystemError,
    /// Some sort of RPC error
    Rpc,
    /// Error from a GNUTLS call
    GnutlsError,
    /// Failed to start network
    NoNetworkStart,
    /// Domain not found or unexpectedly disappeared
    NoDomain,
    /// Network not found
    NoNetwork,
    /// Invalid MAC address
    InvalidMac,
    /// Authentication failed
    AuthFailed,
    /// Invalid storage pool object
    InvalidStoragePool,
    /// Invalid storage vol object
    InvalidStorageVol,
    /// Failed to start storage
    NoStorage,
    /// Storage pool not found
    NoStoragePool,
    /// Storage volume not found
    NoStorageVolume,
    /// Failed to start node driver
    NoNode,
    /// Invalid node device object
    InvalidNodeDevice,
    /// Node device not found
    NoNodeDevice,
    /// Security model not found
    NoSecurityModel,
    /// Operation is not applicable at this time
    OperationInvalid,
    /// Failed to start interface driver
    NoInterfaceStart,
    /// Interface driver not running
    NoInterface,
    /// Invalid interface object
    InvalidInterface,
    /// More than one matching interface found
    MultipleInterfaces,
    /// Failed to start nwfilter driver
    NoNwfilterStart,
    /// Invalid nwfilter object
    InvalidNwfilter,
    /// Nw filter pool not found
    NoNwfilter,
    /// Failed to build firewall
    BuildFirewall,
    /// Failed to start secret storage
    NoSecretStart,
    /// Invalid secret
    InvalidSecret,
    /// Secret not found
    NoSecret,
    /// Unsupported configuration construct
    ConfigUnsupported,
    /// Timeout occurred during operation
    OperationTimeout,
    /// A migration worked, but making the VM persist on the dest host failed
    MigratePersistFailed,
    /// A synchronous hook script failed
    HookScriptFailed,
    /// Invalid domain snapshot
    InvalidDomainSnapshot,
    /// Domain snapshot not found
    NoDomainSnapshot,
    /// Stream pointer not valid
    InvalidStream,
    /// Valid API use but unsupported by the given driver
    ArgumentUnsupported,
    /// Storage pool probe failed
    StorageProbeFailed,
    /// Storage pool already built
    StoragePoolBuilt,
    /// Force was not requested for a risky domain snapshot revert
    SnapshotRevertRisky,
    /// Operation on a domain was canceled/aborted by user
    OperationAborted,
    /// Authentication cancelled
    AuthCancelled,
    /// The metadata is not present
    NoDomainMetadata,
    /// Migration is not safe
    MigrateUnsafe,
    /// Integer overflow
    Overflow,
    /// Action prevented by block copy job
    BlockCopyActive,
    /// The requested operation is not supported
    OperationUnsupported,
    /// Error in ssh transport driver
    Ssh,
    /// Guest agent is unresponsive, not running or not usable
    AgentUnresponsive,
    /// Resource is already in use
    ResourceBusy,
    /// Operation on the object/resource was denied
    AccessDenied,
    /// Error from a dbus service
    DbusService,
    /// The storage vol already exists
    StorageVolExist,
    /// Given CPU is incompatible with host CPU
    CpuIncompatible,
    /// XML document doesn't validate against schema
    XmlInvalidSchema,
    /// Finish API succeeded but it is expected to return NULL
    MigrateFinishOk,
    /// Authentication unavailable
    AuthUnavailable,
    /// Server was not found
    NoServer,
    /// Client was not found
    NoClient,
    /// Guest agent replies with wrong id to guest-sync command (DEPRECATED)
    AgentUnsynced,
    /// Error in libssh transport driver
    Libssh,
    /// Fail to find the desired device
    DeviceMissing,
    /// Invalid nwfilter binding
    InvalidNwfilterBinding,
    /// No nwfilter binding
    NoNwfilterBinding,
    /// Invalid domain checkpoint
    InvalidDomainCheckpoint,
    /// Domain checkpoint not found
    NoDomainCheckpoint,
    /// Domain backup job id not found
    NoDomainBackup,
    /// Invalid network port object
    InvalidNetworkPort,
    /// The network port already exist
    NetworkPortExists,
    /// Network port not found
    NoNetworkPort,
    /// No domain's hostname found
    NoHostname,
    /// Checkpoint can't be used
    CheckpointInconsistent,
    /// More than one matching domain found
    MultipleDomains,
    /// Network metadata is not present
    NoNetworkMetadata,
    /// Indicates an error number not yet supported by the Rust bindings
    Last,
}

/// The numeric code of a `ErrorNumber`, as the native library numbers them.
pub open spec fn spec_number(e: ErrorNumber) -> u32 {
    match e {
        ErrorNumber::NoError => 0u32,
        ErrorNumber::InternalError => 1u32,
        ErrorNumber::NoMemory => 2u32,
        ErrorNumber::NoSupport => 3u32,
        ErrorNumber::UnknownHost => 4u32,
        ErrorNumber::NoConnect => 5u32,
        ErrorNumber::InvalidConn => 6u32,
        ErrorNumber::InvalidDomain => 7u32,
        ErrorNumber::InvalidArg => 8u32,
        ErrorNumber::OperationFailed => 9u32,
        ErrorNumber::GetFailed => 10u32,
        ErrorNumber::PostFailed => 11u32,
        ErrorNumber::HttpError => 12u32,
        ErrorNumber::SExprSerial => 13u32,
        ErrorNumber::NoXen => 14u32,
        ErrorNumber::XenCall => 15u32,
        ErrorNumber::OsType => 16u32,
        ErrorNumber::NoKernel => 17u32,
        ErrorNumber::NoRoot => 18u32,
        ErrorNumber::NoSource => 19u32,
        ErrorNumber::NoTarget => 20u32,
        ErrorNumber::NoName => 21u32,
        ErrorNumber::NoOs => 22u32,
        ErrorNumber::NoDevice => 23u32,
        ErrorNumber::NoXenStore => 24u32,
        ErrorNumber::DriverFull => 25u32,
        ErrorNumber::CallFailed => 26u32,
        ErrorNumber::XmlError => 27u32,
        ErrorNumber::DomExist => 28u32,
        ErrorNumber::OperationDenied => 29u32,
        ErrorNumber::OpenFailed => 30u32,
        ErrorNumber::ReadFailed => 31u32,
        ErrorNumber::ParseFailed => 32u32,
        ErrorNumber::ConfSyntax => 33u32,
        ErrorNumber::WriteFailed => 34u32,
        ErrorNumber::XmlDetail => 35u32,
        ErrorNumber::InvalidNetwork => 36u32,
        ErrorNumber::NetworkExist => 37u32,
        ErrorNumber::SystemError => 38u32,
        ErrorNumber::Rpc => 39u32,
        ErrorNumber::GnutlsError => 40u32,
        ErrorNumber::NoNetworkStart => 41u32,
        ErrorNumber::NoDomain => 42u32,
        ErrorNumber::NoNetwork => 43u32,
        ErrorNumber::InvalidMac => 44u32,
        ErrorNumber::AuthFailed => 45u32,
        ErrorNumber::InvalidStoragePool => 46u32,
        ErrorNumber::InvalidStorageVol => 47u32,
        ErrorNumber::NoStorage => 48u32,
        ErrorNumber::NoStoragePool => 49u32,
        ErrorNumber::NoStorageVolume => 50u32,
        ErrorNumber::NoNode => 51u32,
        ErrorNumber::InvalidNodeDevice => 52u32,
        ErrorNumber::NoNodeDevice => 53u32,
        ErrorNumber::NoSecurityModel => 54u32,
        ErrorNumber::OperationInvalid => 55u32,
        ErrorNumber::NoInterfaceStart => 56u32,
        ErrorNumber::NoInterface => 57u32,
        ErrorNumber::InvalidInterface => 58u32,
        ErrorNumber::MultipleInterfaces => 59u32,
        ErrorNumber::NoNwfilterStart => 60u32,
        ErrorNumber::InvalidNwfilter => 61u32,
        ErrorNumber::NoNwfilter => 62u32,
        ErrorNumber::BuildFirewall => 63u32,
        ErrorNumber::NoSecretStart => 64u32,
        ErrorNumber::InvalidSecret => 65u32,
        ErrorNumber::NoSecret => 66u32,
        ErrorNumber::ConfigUnsupported => 67u32,
        ErrorNumber::OperationTimeout => 68u32,
        ErrorNumber::MigratePersistFailed => 69u32,
        ErrorNumber::HookScriptFailed => 70u32,
        ErrorNumber::InvalidDomainSnapshot => 71u32,
        ErrorNumber::NoDomainSnapshot => 72u32,
        ErrorNumber::InvalidStream => 73u32,
        ErrorNumber::ArgumentUnsupported => 74u32,
        ErrorNumber::StorageProbeFailed => 75u32,
        ErrorNumber::StoragePoolBuilt => 76u32,
        ErrorNumber::SnapshotRevertRisky => 77u32,
        ErrorNumber::OperationAborted => 78u32,
        ErrorNumber::AuthCancelled => 79u32,
        ErrorNumber::NoDomainMetadata => 80u32,
        ErrorNumber::MigrateUnsafe => 81u32,
        ErrorNumber::Overflow => 82u32,
        ErrorNumber::BlockCopyActive => 83u32,
        ErrorNumber::OperationUnsupported => 84u32,
        ErrorNumber::Ssh => 85u32,
        ErrorNumber::AgentUnresponsive => 86u32,
        ErrorNumber::ResourceBusy => 87u32,
        ErrorNumber::AccessDenied => 88u32,
        ErrorNumber::DbusService => 89u32,
        ErrorNumber::StorageVolExist => 90u32,
        ErrorNumber::CpuIncompatible => 91u32,
        ErrorNumber::XmlInvalidSchema => 92u32,
        ErrorNumber::MigrateFinishOk => 93u32,
        ErrorNumber::AuthUnavailable => 94u32,
        ErrorNumber::NoServer => 95u32,
        ErrorNumber::NoClient => 96u32,
        ErrorNumber::AgentUnsynced => 97u32,
        ErrorNumber::Libssh => 98u32,
        ErrorNumber::DeviceMissing => 99u32,
        ErrorNumber::InvalidNwfilterBinding => 100u32,
        ErrorNumber::NoNwfilterBinding => 101u32,
        ErrorNumber::InvalidDomainCheckpoint => 102u32,
        ErrorNumber::NoDomainCheckpoint => 103u32,
        ErrorNumber::NoDomainBackup => 104u32,
        ErrorNumber::InvalidNetworkPort => 105u32,
        ErrorNumber::NetworkPortExists => 106u32,
        ErrorNumber::NoNetworkPort => 107u32,
        ErrorNumber::NoHostname => 108u32,
        ErrorNumber::CheckpointInconsistent => 109u32,
        ErrorNumber::MultipleDomains => 110u32,
        ErrorNumber::NoNetworkMetadata => 111u32,
        ErrorNumber::Last => 112u32,
    }
}

/// The `ErrorNumber` a numeric code names, if any.
pub open spec fn spec_number_back(c: u32) -> Option<ErrorNumber> {
    if c == 0 {
        Some(ErrorNumber::NoError)
    } else if c == 1 {
        Some(ErrorNumber::InternalError)
    } else if c == 2 {
        Some(ErrorNumber::NoMemory)
    } else if c == 3 {
        Some(ErrorNumber::NoSupport)
    } else if c == 4 {
        Some(ErrorNumber::UnknownHost)
    } else if c == 5 {
        Some(ErrorNumber::NoConnect)
    } else if c == 6 {
        Some(ErrorNumber::InvalidConn)
    } else if c == 7 {
        Some(ErrorNumber::InvalidDomain)
    } else if c == 8 {
        Some(ErrorNumber::InvalidArg)
    } else if c == 9 {
        Some(ErrorNumber::OperationFailed)
    } else if c == 10 {
        Some(ErrorNumber::GetFailed)
    } else if c == 11 {
        Some(ErrorNumber::PostFailed)
    } else if c == 12 {
        Some(ErrorNumber::HttpError)
    } else if c == 13 {
        Some(ErrorNumber::SExprSerial)
    } else if c == 14 {
        Some(ErrorNumber::NoXen)
    } else if c == 15 {
        Some(ErrorNumber::XenCall)
    } else if c == 16 {
        Some(ErrorNumber::OsType)
    } else if c == 17 {
        Some(ErrorNumber::NoKernel)
    } else if c == 18 {
        Some(ErrorNumber::NoRoot)
    } else if c == 19 {
        Some(ErrorNumber::NoSource)
    } else if c == 20 {
        Some(ErrorNumber::NoTarget)
    } else if c == 21 {
        Some(ErrorNumber::NoName)
    } else if c == 22 {
        Some(ErrorNumber::NoOs)
    } else if c == 23 {
        Some(ErrorNumber::NoDevice)
    } else if c == 24 {
        Some(ErrorNumber::NoXenStore)
    } else if c == 25 {
        Some(ErrorNumber::DriverFull)
    } else if c == 26 {
        Some(ErrorNumber::CallFailed)
    } else if c == 27 {
        Some(ErrorNumber::XmlError)
    } else if c == 28 {
        Some(ErrorNumber::DomExist)
    } else if c == 29 {
        Some(ErrorNumber::OperationDenied)
    } else if c == 30 {
        Some(ErrorNumber::OpenFailed)
    } else if c == 31 {
        Some(ErrorNumber::ReadFailed)
    } else if c == 32 {
        Some(ErrorNumber::ParseFailed)
    } else if c == 33 {
        Some(ErrorNumber::ConfSyntax)
    } else if c == 34 {
        Some(ErrorNumber::WriteFailed)
    } else if c == 35 {
        Some(ErrorNumber::XmlDetail)
    } else if c == 36 {
        Some(ErrorNumber::InvalidNetwork)
    } else if c == 37 {
        Some(ErrorNumber::NetworkExist)
    } else if c == 38 {
        Some(ErrorNumber::SystemError)
    } else if c == 39 {
        Some(ErrorNumber::Rpc)
    } else if c == 40 {
        Some(ErrorNumber::GnutlsError)
    } else if c == 41 {
        Some(ErrorNumber::NoNetworkStart)
    } else if c == 42 {
        Some(ErrorNumber::NoDomain)
    } else if c == 43 {
        Some(ErrorNumber::NoNetwork)
    } else if c == 44 {
        Some(ErrorNumber::InvalidMac)
    } else if c == 45 {
        Some(ErrorNumber::AuthFailed)
    } else if c == 46 {
        Some(ErrorNumber::InvalidStoragePool)
    } else if c == 47 {
        Some(ErrorNumber::InvalidStorageVol)
    } else if c == 48 {
        Some(ErrorNumber::NoStorage)
    } else if c == 49 {
        Some(ErrorNumber::NoStoragePool)
    } else if c == 50 {
        Some(ErrorNumber::NoStorageVolume)
    } else if c == 51 {
        Some(ErrorNumber::NoNode)
    } else if c == 52 {
        Some(ErrorNumber::InvalidNodeDevice)
    } else if c == 53 {
        Some(ErrorNumber::NoNodeDevice)
    } else if c == 54 {
        Some(ErrorNumber::NoSecurityModel)
    } else if c == 55 {
        Some(ErrorNumber::OperationInvalid)
    } else if c == 56 {
        Some(ErrorNumber::NoInterfaceStart)
    } else if c == 57 {
        Some(ErrorNumber::NoInterface)
    } else if c == 58 {
        Some(ErrorNumber::InvalidInterface)
    } else if c == 59 {
        Some(ErrorNumber::MultipleInterfaces)
    } else if c == 60 {
        Some(ErrorNumber::NoNwfilterStart)
    } else if c == 61 {
        Some(ErrorNumber::InvalidNwfilter)
    } else if c == 62 {
        Some(ErrorNumber::NoNwfilter)
    } else if c == 63 {
        Some(ErrorNumber::BuildFirewall)
    } else if c == 64 {
        Some(ErrorNumber::NoSecretStart)
    } else if c == 65 {
        Some(ErrorNumber::InvalidSecret)
    } else if c == 66 {
        Some(ErrorNumber::NoSecret)
    } else if c == 67 {
        Some(ErrorNumber::ConfigUnsupported)
    } else if c == 68 {
        Some(ErrorNumber::OperationTimeout)
    } else if c == 69 {
        Some(ErrorNumber::MigratePersistFailed)
    } else if c == 70 {
        Some(ErrorNumber::HookScriptFailed)
    } else if c == 71 {
        Some(ErrorNumber::InvalidDomainSnapshot)
    } else if c == 72 {
        Some(ErrorNumber::NoDomainSnapshot)
    } else if c == 73 {
        Some(ErrorNumber::InvalidStream)
    } else if c == 74 {
        Some(ErrorNumber::ArgumentUnsupported)
    } else if c == 75 {
        Some(ErrorNumber::StorageProbeFailed)
    } else if c == 76 {
        Some(ErrorNumber::StoragePoolBuilt)
    } else if c == 77 {
        Some(ErrorNumber::SnapshotRevertRisky)
    } else if c == 78 {
        Some(ErrorNumber::OperationAborted)
    } else if c == 79 {
        Some(ErrorNumber::AuthCancelled)
    } else if c == 80 {
        Some(ErrorNumber::NoDomainMetadata)
    } else if c == 81 {
        Some(ErrorNumber::MigrateUnsafe)
    } else if c == 82 {
        Some(ErrorNumber::Overflow)
    } else if c == 83 {
        Some(ErrorNumber::BlockCopyActive)
    } else if c == 84 {
        Some(ErrorNumber::OperationUnsupported)
    } else if c == 85 {
        Some(ErrorNumber::Ssh)
    } else if c == 86 {
        Some(ErrorNumber::AgentUnresponsive)
    } else if c == 87 {
        Some(ErrorNumber::ResourceBusy)
    } else if c == 88 {
        Some(ErrorNumber::AccessDenied)
    } else if c == 89 {
        Some(ErrorNumber::DbusService)
    } else if c == 90 {
        Some(ErrorNumber::StorageVolExist)
    } else if c == 91 {
        Some(ErrorNumber::CpuIncompatible)
    } else if c == 92 {
        Some(ErrorNumber::XmlInvalidSchema)
    } else if c == 93 {
        Some(ErrorNumber::MigrateFinishOk)
    } else if c == 94 {
        Some(ErrorNumber::AuthUnavailable)
    } else if c == 95 {
        Some(ErrorNumber::NoServer)
    } else if c == 96 {
        Some(ErrorNumber::NoClient)
    } else if c == 97 {
        Some(ErrorNumber::AgentUnsynced)
    } else if c == 98 {
        Some(ErrorNumber::Libssh)
    } else if c == 99 {
        Some(ErrorNumber::DeviceMissing)
    } else if c == 100 {
        Some(ErrorNumber::InvalidNwfilterBinding)
    } else if c == 101 {
        Some(ErrorNumber::NoNwfilterBinding)
    } else if c == 102 {
        Some(ErrorNumber::InvalidDomainCheckpoint)
    } else if c == 103 {
        Some(ErrorNumber::NoDomainCheckpoint)
    } else if c == 104 {
        Some(ErrorNumber::NoDomainBackup)
    } else if c == 105 {
        Some(ErrorNumber::InvalidNetworkPort)
    } else if c == 106 {
        Some(ErrorNumber::NetworkPortExists)
    } else if c == 107 {
        Some(ErrorNumber::NoNetworkPort)
    } else if c == 108 {
        Some(ErrorNumber::NoHostname)
    } else if c == 109 {
        Some(ErrorNumber::CheckpointInconsistent)
    } else if c == 110 {
        Some(ErrorNumber::MultipleDomains)
    } else if c == 111 {
        Some(ErrorNumber::NoNetworkMetadata)
    } else if c == 112 {
        Some(ErrorNumber::Last)
    } else {
        None
    }
}

impl ErrorNumber {
    /// The numeric code the native library uses for this case.
    pub fn code(&self) -> (r: u32)
        ensures
            r == spec_number(*self),
    {
        match self {
            ErrorNumber::NoError => 0,
            ErrorNumber::InternalError => 1,
            ErrorNumber::NoMemory => 2,
            ErrorNumber::NoSupport => 3,
            ErrorNumber::UnknownHost => 4,
            ErrorNumber::NoConnect => 5,
            ErrorNumber::InvalidConn => 6,
            ErrorNumber::InvalidDomain => 7,
            ErrorNumber::InvalidArg => 8,
            ErrorNumber::OperationFailed => 9,
            ErrorNumber::GetFailed => 10,
            ErrorNumber::PostFailed => 11,
            ErrorNumber::HttpError => 12,
            ErrorNumber::SExprSerial => 13,
            ErrorNumber::NoXen => 14,
            ErrorNumber::XenCall => 15,
            ErrorNumber::OsType => 16,
            ErrorNumber::NoKernel => 17,
            ErrorNumber::NoRoot => 18,
            ErrorNumber::NoSource => 19,
            ErrorNumber::NoTarget => 20,
            ErrorNumber::NoName => 21,
            ErrorNumber::NoOs => 22,
            ErrorNumber::NoDevice => 23,
            ErrorNumber::NoXenStore => 24,
            ErrorNumber::DriverFull => 25,
            ErrorNumber::CallFailed => 26,
            ErrorNumber::XmlError => 27,
            ErrorNumber::DomExist => 28,
            ErrorNumber::OperationDenied => 29,
            ErrorNumber::OpenFailed => 30,
            ErrorNumber::ReadFailed => 31,
            ErrorNumber::ParseFailed => 32,
            ErrorNumber::ConfSyntax => 33,
            ErrorNumber::WriteFailed => 34,
            ErrorNumber::XmlDetail => 35,
            ErrorNumber::InvalidNetwork => 36,
            ErrorNumber::NetworkExist => 37,
            ErrorNumber::SystemError => 38,
            ErrorNumber::Rpc => 39,
            ErrorNumber::GnutlsError => 40,
            ErrorNumber::NoNetworkStart => 41,
            ErrorNumber::NoDomain => 42,
            ErrorNumber::NoNetwork => 43,
            ErrorNumber::InvalidMac => 44,
            ErrorNumber::AuthFailed => 45,
            ErrorNumber::InvalidStoragePool => 46,
            ErrorNumber::InvalidStorageVol => 47,
            ErrorNumber::NoStorage => 48,
            ErrorNumber::NoStoragePool => 49,
            ErrorNumber::NoStorageVolume => 50,
            ErrorNumber::NoNode => 51,
            ErrorNumber::InvalidNodeDevice => 52,
            ErrorNumber::NoNodeDevice => 53,
            ErrorNumber::NoSecurityModel => 54,
            ErrorNumber::OperationInvalid => 55,
            ErrorNumber::NoInterfaceStart => 56,
            ErrorNumber::NoInterface => 57,
            ErrorNumber::InvalidInterface => 58,
            ErrorNumber::MultipleInterfaces => 59,
            ErrorNumber::NoNwfilterStart => 60,
            ErrorNumber::InvalidNwfilter => 61,
            ErrorNumber::NoNwfilter => 62,
            ErrorNumber::BuildFirewall => 63,
            ErrorNumber::NoSecretStart => 64,
            ErrorNumber::InvalidSecret => 65,
            ErrorNumber::NoSecret => 66,
            ErrorNumber::ConfigUnsupported => 67,
            ErrorNumber::OperationTimeout => 68,
            ErrorNumber::MigratePersistFailed => 69,
            ErrorNumber::HookScriptFailed => 70,
            ErrorNumber::InvalidDomainSnapshot => 71,
            ErrorNumber::NoDomainSnapshot => 72,
            ErrorNumber::InvalidStream => 73,
            ErrorNumber::ArgumentUnsupported => 74,
            ErrorNumber::StorageProbeFailed => 75,
            ErrorNumber::StoragePoolBuilt => 76,
            ErrorNumber::SnapshotRevertRisky => 77,
            ErrorNumber::OperationAborted => 78,
            ErrorNumber::AuthCancelled => 79,
            ErrorNumber::NoDomainMetadata => 80,
            ErrorNumber::MigrateUnsafe => 81,
            ErrorNumber::Overflow => 82,
            ErrorNumber::BlockCopyActive => 83,
            ErrorNumber::OperationUnsupported => 84,
            ErrorNumber::Ssh => 85,
            ErrorNumber::AgentUnresponsive => 86,
            ErrorNumber::ResourceBusy => 87,
            ErrorNumber::AccessDenied => 88,
            ErrorNumber::DbusService => 89,
            ErrorNumber::StorageVolExist => 90,
            ErrorNumber::CpuIncompatible => 91,
            ErrorNumber::XmlInvalidSchema => 92,
            ErrorNumber::MigrateFinishOk => 93,
            ErrorNumber::AuthUnavailable => 94,
            ErrorNumber::NoServer => 95,
            ErrorNumber::NoClient => 96,
            ErrorNumber::AgentUnsynced => 97,
            ErrorNumber::Libssh => 98,
            ErrorNumber::DeviceMissing => 99,
            ErrorNumber::InvalidNwfilterBinding => 100,
            ErrorNumber::NoNwfilterBinding => 101,
            ErrorNumber::InvalidDomainCheckpoint => 102,
            ErrorNumber::NoDomainCheckpoint => 103,
            ErrorNumber::NoDomainBackup => 104,
            ErrorNumber::InvalidNetworkPort => 105,
            ErrorNumber::NetworkPortExists => 106,
            ErrorNumber::NoNetworkPort => 107,
            ErrorNumber::NoHostname => 108,
            ErrorNumber::CheckpointInconsistent => 109,
            ErrorNumber::MultipleDomains => 110,
            ErrorNumber::NoNetworkMetadata => 111,
            ErrorNumber::Last => 112,
        }
    }

    /// The case a numeric code names, `None` for an unassigned code.
    pub fn from_code(c: u32) -> (r: Option<ErrorNumber>)
        ensures
            r == spec_number_back(c),
    {
        if c == 0 {
            Some(ErrorNumber::NoError)
        } else if c == 1 {
            Some(ErrorNumber::InternalError)
        } else if c == 2 {
            Some(ErrorNumber::NoMemory)
        } else if c == 3 {
            Some(ErrorNumber::NoSupport)
        } else if c == 4 {
            Some(ErrorNumber::UnknownHost)
        } else if c == 5 {
            Some(ErrorNumber::NoConnect)
        } else if c == 6 {
            Some(ErrorNumber::InvalidConn)
        } else if c == 7 {
            Some(ErrorNumber::InvalidDomain)
        } else if c == 8 {
            Some(ErrorNumber::InvalidArg)
        } else if c == 9 {
            Some(ErrorNumber::OperationFailed)
        } else if c == 10 {
            Some(ErrorNumber::GetFailed)
        } else if c == 11 {
            Some(ErrorNumber::PostFailed)
        } else if c == 12 {
            Some(ErrorNumber::HttpError)
        } else if c == 13 {
            Some(ErrorNumber::SExprSerial)
        } else if c == 14 {
            Some(ErrorNumber::NoXen)
        } else if c == 15 {
            Some(ErrorNumber::XenCall)
        } else if c == 16 {
            Some(ErrorNumber::OsType)
        } else if c == 17 {
            Some(ErrorNumber::NoKernel)
        } else if c == 18 {
            Some(ErrorNumber::NoRoot)
        } else if c == 19 {
            Some(ErrorNumber::NoSource)
        } else if c == 20 {
            Some(ErrorNumber::NoTarget)
        } else if c == 21 {
            Some(ErrorNumber::NoName)
        } else if c == 22 {
            Some(ErrorNumber::NoOs)
        } else if c == 23 {
            Some(ErrorNumber::NoDevice)
        } else if c == 24 {
            Some(ErrorNumber::NoXenStore)
        } else if c == 25 {
            Some(ErrorNumber::DriverFull)
        } else if c == 26 {
            Some(ErrorNumber::CallFailed)
        } else if c == 27 {
            Some(ErrorNumber::XmlError)
        } else if c == 28 {
            Some(ErrorNumber::DomExist)
        } else if c == 29 {
            Some(ErrorNumber::OperationDenied)
        } else if c == 30 {
            Some(ErrorNumber::OpenFailed)
        } else if c == 31 {
            Some(ErrorNumber::ReadFailed)
        } else if c == 32 {
            Some(ErrorNumber::ParseFailed)
        } else if c == 33 {
            Some(ErrorNumber::ConfSyntax)
        } else if c == 34 {
            Some(ErrorNumber::WriteFailed)
        } else if c == 35 {
            Some(ErrorNumber::XmlDetail)
        } else if c == 36 {
            Some(ErrorNumber::InvalidNetwork)
        } else if c == 37 {
            Some(ErrorNumber::NetworkExist)
        } else if c == 38 {
            Some(ErrorNumber::SystemError)
        } else if c == 39 {
            Some(ErrorNumber::Rpc)
        } else if c == 40 {
            Some(ErrorNumber::GnutlsError)
        } else if c == 41 {
            Some(ErrorNumber::NoNetworkStart)
        } else if c == 42 {
            Some(ErrorNumber::NoDomain)
        } else if c == 43 {
            Some(ErrorNumber::NoNetwork)
        } else if c == 44 {
            Some(ErrorNumber::InvalidMac)
        } else if c == 45 {
            Some(ErrorNumber::AuthFailed)
        } else if c == 46 {
            Some(ErrorNumber::InvalidStoragePool)
        } else if c == 47 {
            Some(ErrorNumber::InvalidStorageVol)
        } else if c == 48 {
            Some(ErrorNumber::NoStorage)
        } else if c == 49 {
            Some(ErrorNumber::NoStoragePool)
        } else if c == 50 {
            Some(ErrorNumber::NoStorageVolume)
        } else if c == 51 {
            Some(ErrorNumber::NoNode)
        } else if c == 52 {
            Some(ErrorNumber::InvalidNodeDevice)
        } else if c == 53 {
            Some(ErrorNumber::NoNodeDevice)
        } else if c == 54 {
            Some(ErrorNumber::NoSecurityModel)
        } else if c == 55 {
            Some(ErrorNumber::OperationInvalid)
        } else if c == 56 {
            Some(ErrorNumber::NoInterfaceStart)
        } else if c == 57 {
            Some(ErrorNumber::NoInterface)
        } else if c == 58 {
            Some(ErrorNumber::InvalidInterface)
        } else if c == 59 {
            Some(ErrorNumber::MultipleInterfaces)
        } else if c == 60 {
            Some(ErrorNumber::NoNwfilterStart)
        } else if c == 61 {
            Some(ErrorNumber::InvalidNwfilter)
        } else if c == 62 {
            Some(ErrorNumber::NoNwfilter)
        } else if c == 63 {
            Some(ErrorNumber::BuildFirewall)
        } else if c == 64 {
            Some(ErrorNumber::NoSecretStart)
        } else if c == 65 {
            Some(ErrorNumber::InvalidSecret)
        } else if c == 66 {
            Some(ErrorNumber::NoSecret)
        } else if c == 67 {
            Some(ErrorNumber::ConfigUnsupported)
        } else if c == 68 {
            Some(ErrorNumber::OperationTimeout)
        } else if c == 69 {
            Some(ErrorNumber::MigratePersistFailed)
        } else if c == 70 {
            Some(ErrorNumber::HookScriptFailed)
        } else if c == 71 {
            Some(ErrorNumber::InvalidDomainSnapshot)
        } else if c == 72 {
            Some(ErrorNumber::NoDomainSnapshot)
        } else if c == 73 {
            Some(ErrorNumber::InvalidStream)
        } else if c == 74 {
            Some(ErrorNumber::ArgumentUnsupported)
        } else if c == 75 {
            Some(ErrorNumber::StorageProbeFailed)
        } else if c == 76 {
            Some(ErrorNumber::StoragePoolBuilt)
        } else if c == 77 {
            Some(ErrorNumber::SnapshotRevertRisky)
        } else if c == 78 {
            Some(ErrorNumber::OperationAborted)
        } else if c == 79 {
            Some(ErrorNumber::AuthCancelled)
        } else if c == 80 {
            Some(ErrorNumber::NoDomainMetadata)
        } else if c == 81 {
            Some(ErrorNumber::MigrateUnsafe)
        } else if c == 82 {
            Some(ErrorNumber::Overflow)
        } else if c == 83 {
            Some(ErrorNumber::BlockCopyActive)
        } else if c == 84 {
            Some(ErrorNumber::OperationUnsupported)
        } else if c == 85 {
            Some(ErrorNumber::Ssh)
        } else if c == 86 {
            Some(ErrorNumber::AgentUnresponsive)
        } else if c == 87 {
            Some(ErrorNumber::ResourceBusy)
        } else if c == 88 {
            Some(ErrorNumber::AccessDenied)
        } else if c == 89 {
            Some(ErrorNumber::DbusService)
        } else if c == 90 {
            Some(ErrorNumber::StorageVolExist)
        } else if c == 91 {
            Some(ErrorNumber::CpuIncompatible)
        } else if c == 92 {
            Some(ErrorNumber::XmlInvalidSchema)
        } else if c == 93 {
            Some(ErrorNumber::MigrateFinishOk)
        } else if c == 94 {
            Some(ErrorNumber::AuthUnavailable)
        } else if c == 95 {
            Some(ErrorNumber::NoServer)
        } else if c == 96 {
            Some(ErrorNumber::NoClient)
        } else if c == 97 {
            Some(ErrorNumber::AgentUnsynced)
        } else if c == 98 {
            Some(ErrorNumber::Libssh)
        } else if c == 99 {
            Some(ErrorNumber::DeviceMissing)
        } else if c == 100 {
            Some(ErrorNumber::InvalidNwfilterBinding)
        } else if c == 101 {
            Some(ErrorNumber::NoNwfilterBinding)
        } else if c == 102 {
            Some(ErrorNumber::InvalidDomainCheckpoint)
        } else if c == 103 {
            Some(ErrorNumber::NoDomainCheckpoint)
        } else if c == 104 {
            Some(ErrorNumber::NoDomainBackup)
        } else if c == 105 {
            Some(ErrorNumber::InvalidNetworkPort)
        } else if c == 106 {
            Some(ErrorNumber::NetworkPortExists)
        } else if c == 107 {
            Some(ErrorNumber::NoNetworkPort)
        } else if c == 108 {
            Some(ErrorNumber::NoHostname)
        } else if c == 109 {
            Some(ErrorNumber::CheckpointInconsistent)
        } else if c == 110 {
            Some(ErrorNumber::MultipleDomains)
        } else if c == 111 {
            Some(ErrorNumber::NoNetworkMetadata)
        } else if c == 112 {
            Some(ErrorNumber::Last)
        } else {
            None
        }
    }
}

/// Law: the numbering of `ErrorNumber` is faithful — every case is
/// recovered from its own code, so no two cases share one.
pub proof fn lemma_number_round_trip(e: ErrorNumber)
    ensures
        spec_number_back(spec_number(e)) == Some(e),
{
}
/// The error record handed onward: the native error's numbers and its
/// stringified message.
pub struct Error {
    pub code: u32,
    pub domain: u32,
    pub message: String,
    pub level: u32,
}

impl Error {
    /// Wraps what the driver reported as its most recent error, field for
    /// field: nothing is renumbered and the message passes through
    /// verbatim.
    pub fn last_error(code: u32, domain: u32, message: String, level: u32) -> (r: Error)
        ensures
            r.code == code,
            r.domain == domain,
            r.message@ == message@,
            r.level == level,
    {
        Error { code, domain, message, level }
    }
}

} // verus!

//! The stateful binding session: one connection opened by URI, held until
//! it is dropped, and the guest-control flows built on it.
//!
//! This is the structured-error side of the binding: every failure names
//! its cause, and the texts reported to the embedder are pinned down
//! exactly. The driver's own answers come in as arguments; an error
//! string among them is the driver's stringified error.

use vstd::prelude::*;
use vstd::string::StringExecFns;
use crate::connection::ConnToken;
use crate::machine::Machine;

verus! {

/// Why a session call failed.
#[derive(Debug)]
pub enum LibvirtError {
    /// No connection was ever opened.
    NotConnected,
    /// The connection no longer answers.
    NotAlive,
    /// The driver refused to open the connection.
    ConnectFailed(String),
    /// The driver refused a list call.
    Failed(String),
    /// The driver refused the operation itself.
    OperationFailed(String),
    /// The machine to operate on was not found.
    MachineNotFound(String),
}

/// The text a session error reports to the embedder.
pub open spec fn message_of(e: LibvirtError) -> Seq<char> {
    match e {
        LibvirtError::NotConnected => "Connection not opened"@,
        LibvirtError::NotAlive => "Connection is not alive"@,
        LibvirtError::ConnectFailed(s) => "Failed to connect: "@ + s@,
        LibvirtError::Failed(s) => "Error: "@ + s@,
        LibvirtError::OperationFailed(s) => "Operation failed: "@ + s@,
        LibvirtError::MachineNotFound(s) => "Machine not found: "@ + s@,
    }
}

impl LibvirtError {
    /// The report exactly as the embedder sees it.
    pub fn message(&self) -> (r: String)
        ensures
            r@ == message_of(*self),
    {
        match self {
            LibvirtError::NotConnected => String::from_str("Connection not opened"),
            LibvirtError::NotAlive => String::from_str("Connection is not alive"),
            LibvirtError::ConnectFailed(s) => String::from_str("Failed to connect: ").concat(
                s.as_str(),
            ),
            LibvirtError::Failed(s) => String::from_str("Error: ").concat(s.as_str()),
            LibvirtError::OperationFailed(s) => String::from_str("Operation failed: ").concat(
                s.as_str(),
            ),
            LibvirtError::MachineNotFound(s) => String::from_str("Machine not found: ").concat(
                s.as_str(),
            ),
        }
    }
}

/// A binding session: the URI the connection was opened with, and the
/// native handle while one is open.
pub struct Libvirt {
    pub conn: Option<String>,
    pub connection: Option<u64>,
}

impl Libvirt {
    /// A fresh session: nothing opened yet.
    pub fn new() -> (r: Libvirt)
        ensures
            r.conn is None,
            r.connection is None,
    {
        Libvirt { conn: None, connection: None }
    }

    /// Whether `connect` would ask the driver for a handle at all: an
    /// open session keeps its handle.
    pub fn connect_needed(&self) -> (r: bool)
        ensures
            r <==> self.connection is None,
    {
        self.connection.is_none()
    }

    /// Connects the session. When a connection is already open nothing
    /// happens: no second handle is taken and no error is raised. On a
    /// closed session the driver's outcome for opening `uri` decides:
    /// a handle is adopted together with the URI, a driver error is
    /// reported as the connect failure, verbatim inside the message.
    pub fn connect(&mut self, uri: String, opened: Option<Result<u64, String>>) -> (r: Result<
        (),
        LibvirtError,
    >)
        requires
            old(self).connection is None ==> opened is Some,
        ensures
            final(self).connection == spec_connect_handle(
                old(self).connection,
                match opened {
                    Some(Ok(h)) => Some(h),
                    _ => None,
                },
            ),
            old(self).connection is Some ==> final(self).conn == old(self).conn
                && final(self).connection == old(self).connection && r is Ok,
            old(self).connection is None ==> match opened {
                Some(Ok(h)) => final(self).connection == Some(h) && (
                final(self).conn matches Some(u) && u@ == uri@) && r is Ok,
                Some(Err(e)) => final(self).connection is None && final(self).conn == old(
                    self,
                ).conn && (r matches Err(err) && err == LibvirtError::ConnectFailed(e)),
                None => false,
            },
    {
        if self.connection.is_some() {
            return Ok(());
        }
        match opened {
            Some(Ok(h)) => {
                self.conn = Some(uri);
                self.connection = Some(h);
                Ok(())
            },
            Some(Err(e)) => Err(LibvirtError::ConnectFailed(e)),
            None => {
                proof {
                    assert(false);
                }
                Ok(())
            },
        }
    }

    /// Drops the connection, handing back whatever handle there was so
    /// the embedder can close it natively. On a session that is already
    /// closed — or was never opened — this is a no-op, not a failure.
    pub fn disconnect(&mut self) -> (r: Option<u64>)
        ensures
            final(self).connection is None,
            final(self).conn == old(self).conn,
            r == old(self).connection,
    {
        let r = self.connection;
        self.connection = None;
        r
    }

    /// The handle to call through: refused while no connection is open,
    /// and refused while the driver reports the connection dead.
    pub fn get_connection(&self, alive: bool) -> (r: Result<u64, LibvirtError>)
        ensures
            self.connection is None ==> r == Err::<u64, LibvirtError>(LibvirtError::NotConnected),
            self.connection is Some && !alive ==> r == Err::<u64, LibvirtError>(
                LibvirtError::NotAlive,
            ),
            alive ==> match self.connection {
                Some(h) => r == Ok::<u64, LibvirtError>(h),
                None => r == Err::<u64, LibvirtError>(LibvirtError::NotConnected),
            },
    {
        match self.connection {
            Some(h) => {
                if alive {
                    Ok(h)
                } else {
                    Err(LibvirtError::NotAlive)
                }
            },
            None => Err(LibvirtError::NotConnected),
        }
    }

    /// The defined domain names, exactly as the driver listed them: same
    /// names, same order, nothing filtered, renamed or added. A session
    /// or driver failure names its cause instead.
    pub fn list_domains(&self, alive: bool, fetched: Result<Vec<String>, String>) -> (r: Result<
        Vec<String>,
        LibvirtError,
    >)
        ensures
            self.connection is None ==> r == Err::<Vec<String>, LibvirtError>(
                LibvirtError::NotConnected,
            ),
            self.connection is Some && !alive ==> r == Err::<Vec<String>, LibvirtError>(
                LibvirtError::NotAlive,
            ),
            self.connection is Some && alive ==> match fetched {
                Ok(list) => r == Ok::<Vec<String>, LibvirtError>(list),
                Err(e) => r == Err::<Vec<String>, LibvirtError>(LibvirtError::Failed(e)),
            },
    {
        match self.get_connection(alive) {
            Ok(_) => match fetched {
                Ok(list) => Ok(list),
                Err(e) => Err(LibvirtError::Failed(e)),
            },
            Err(e) => Err(e),
        }
    }

    /// The machine of the given name: the driver's handle wrapped whole,
    /// or the failure that stood in the way.
    pub fn get_dommain(&self, alive: bool, name: String, found: Result<u64, String>) -> (r:
        Result<Machine, LibvirtError>)
        ensures
            self.connection is None ==> r == Err::<Machine, LibvirtError>(
                LibvirtError::NotConnected,
            ),
            self.connection is Some && !alive ==> r == Err::<Machine, LibvirtError>(
                LibvirtError::NotAlive,
            ),
            alive ==> match self.connection {
                Some(h) => match found {
                    Ok(d) => r matches Ok(m) && m.handle == d && m.con.handle == h,
                    Err(e) => r == Err::<Machine, LibvirtError>(LibvirtError::OperationFailed(e)),
                },
                None => r == Err::<Machine, LibvirtError>(LibvirtError::NotConnected),
            },
    {
        match self.get_connection(alive) {
            Ok(h) => match found {
                Ok(d) => Ok(Machine { handle: d, con: ConnToken { handle: h } }),
                Err(e) => Err(LibvirtError::OperationFailed(e)),
            },
            Err(e) => Err(e),
        }
    }
}

/// The one handle a session holds after a connect, as a function of the
/// handle it held before and whatever handle the driver may have opened:
/// an open session keeps its own handle, a closed one adopts the
/// driver's.
pub open spec fn spec_connect_handle(held: Option<u64>, opened: Option<u64>) -> Option<u64> {
    match held {
        Some(h) => Some(h),
        None => opened,
    }
}

/// Law: connecting is idempotent on an open session. Whatever handle the
/// embedder might meanwhile have opened, the session keeps the one
/// handle it already holds — no duplicate is ever adopted — and, by the
/// contract of `connect`, the stored URI stays and no error is raised.
pub proof fn lemma_connect_idempotent(held: u64, opened: Option<u64>)
    ensures
        spec_connect_handle(Some(held), opened) == Some(held),
{
}

/// What the power-off flow does to the machine: with ACPI the guest is
/// asked to shut down, without it the machine is destroyed outright.
pub enum PowerAction {
    Shutdown,
    Destroy,
}

/// The power-off choice.
pub fn power_off_action(acpi: bool) -> (r: PowerAction)
    ensures
        acpi <==> r is Shutdown,
{
    if acpi {
        PowerAction::Shutdown
    } else {
        PowerAction::Destroy
    }
}

/// How every guest-control flow (suspend, resume, power on and off,
/// undefine) reports: a machine that was not found names that failure
/// with the underlying message inside; a refused operation names the
/// driver's error; success is a plain `true`.
pub fn control_outcome(machine: Result<Machine, LibvirtError>, op: Result<(), String>) -> (r:
    Result<bool, LibvirtError>)
    ensures
        machine matches Err(e) ==> r matches Err(f) && f matches
            LibvirtError::MachineNotFound(m) && m@ == message_of(e),
        machine is Ok ==> match op {
            Ok(()) => r == Ok::<bool, LibvirtError>(true),
            Err(e) => r matches Err(f) && f == LibvirtError::OperationFailed(e),
        },
{
    match machine {
        Ok(_) => match op {
            Ok(()) => Ok(true),
            Err(e) => Err(LibvirtError::OperationFailed(e)),
        },
        Err(e) => Err(LibvirtError::MachineNotFound(e.message())),
    }
}

/// Defines a domain from an XML document on the session's connection:
/// the document went to the driver verbatim; here its outcome is
/// reported, each failure naming its cause.
pub fn define_xml_outcome(
    connection: Result<u64, LibvirtError>,
    op: Result<u64, String>,
) -> (r: Result<bool, LibvirtError>)
    ensures
        connection matches Err(e) ==> r == Err::<bool, LibvirtError>(e),
        connection is Ok ==> match op {
            Ok(_) => r == Ok::<bool, LibvirtError>(true),
            Err(e) => r matches Err(f) && f == LibvirtError::OperationFailed(e),
        },
{
    match connection {
        Ok(_) => match op {
            Ok(_) => Ok(true),
            Err(e) => Err(LibvirtError::OperationFailed(e)),
        },
        Err(e) => Err(e),
    }
}

/// The domain account the embedder shows: every field the driver did not
/// answer falls back to its stated default, every answered field passes
/// through unchanged.
pub struct DomainInfoReport {
    pub id: u32,
    pub name: String,
    pub state: u32,
    pub memory: u64,
    pub vcpus: u64,
    pub os_type: String,
    pub hostname: String,
    pub uuid: String,
    pub is_active: bool,
}

/// Assembles the domain account from the driver's answers: a missing id
/// is zero, a missing state is zero, missing sizes are zero, a missing
/// activity flag is false, and missing texts fall back to the stated
/// unknown markers.
pub fn domain_info_report(
    id: Option<u32>,
    name: Option<String>,
    state: Option<(u32, i32)>,
    memory: Option<u64>,
    vcpus: Option<u64>,
    os_type: Option<String>,
    hostname: Option<String>,
    uuid: Option<String>,
    is_active: Option<bool>,
) -> (r: DomainInfoReport)
    ensures
        r.id == match id {
            Some(v) => v,
            None => 0u32,
        },
        r.name@ == match name {
            Some(v) => v@,
            None => "Unkown"@,
        },
        r.state == match state {
            Some(v) => v.0,
            None => 0u32,
        },
        r.memory == match memory {
            Some(v) => v,
            None => 0u64,
        },
        r.vcpus == match vcpus {
            Some(v) => v,
            None => 0u64,
        },
        r.os_type@ == match os_type {
            Some(v) => v@,
            None => "Unkown"@,
        },
        r.hostname@ == match hostname {
            Some(v) => v@,
            None => "Unkown"@,
        },
        r.uuid@ == match uuid {
            Some(v) => v@,
            None => "Unknown"@,
        },
        r.is_active == match is_active {
            Some(v) => v,
            None => false,
        },
{
    DomainInfoReport {
        id: match id {
            Some(v) => v,
            None => 0,
        },
        name: match name {
            Some(v) => v,
            None => String::from_str("Unkown"),
        },
        state: match state {
            Some((s, _)) => s,
            None => 0,
        },
        memory: match memory {
            Some(v) => v,
            None => 0,
        },
        vcpus: match vcpus {
            Some(v) => v,
            None => 0,
        },
        os_type: match os_type {
            Some(v) => v,
            None => String::from_str("Unkown"),
        },
        hostname: match hostname {
            Some(v) => v,
            None => String::from_str("Unkown"),
        },
        uuid: match uuid {
            Some(v) => v,
            None => String::from_str("Unknown"),
        },
        is_active: match is_active {
            Some(v) => v,
            None => false,
        },
    }
}

} // verus!

//! The virtual machine wrapper: one domain handle plus a shared token of
//! the connection it came from.
//!
//! Lookups and definitions absorb the handle the driver returned — all of
//! it or none of it. State-changing operations with 64-bit parameters go
//! through the narrowing guard: the request carries the value unchanged
//! exactly when the runtime delivered it losslessly, and is refused
//! before anything is sent otherwise. Plain reads hand the driver's
//! answer through untouched.

use vstd::prelude::*;
use crate::big::Big;
use crate::connection::{ConnToken, Connection};

verus! {

/// A virtual machine: the domain handle and the owning connection.
#[derive(Clone, Copy)]
pub struct Machine {
    pub handle: u64,
    pub con: ConnToken,
}

/// What the driver reports of a machine, with the 64-bit quantities
/// wrapped for the embedding runtime.
pub struct MachineInfo {
    pub state: u32,
    pub max_mem: Big,
    pub memory: Big,
    pub nr_virt_cpu: u32,
    pub cpu_time: Big,
}

/// A point in time: seconds and leftover nanoseconds.
pub struct Time {
    pub seconds: i64,
    pub nseconds: i32,
}

/// A machine's run state and the reason it entered it.
pub struct StateResult {
    pub result: u32,
    pub reason: i32,
}

/// Sizes of a block device image: logical, allocated, physical.
pub struct BlockInfo {
    pub capacity: Big,
    pub allocation: Big,
    pub physical: Big,
}

/// Traffic counters of one network interface.
pub struct InterfaceStats {
    pub rx_bytes: i64,
    pub rx_packets: i64,
    pub rx_errs: i64,
    pub rx_drop: i64,
    pub tx_bytes: i64,
    pub tx_packets: i64,
    pub tx_errs: i64,
    pub tx_drop: i64,
}

/// One tagged memory statistic.
pub struct MemoryStat {
    pub tag: u32,
    pub val: Big,
}

/// Memory tuning limits, each optional.
pub struct MemoryParameters {
    pub hard_limit: Option<Big>,
    pub soft_limit: Option<Big>,
    pub min_guarantee: Option<Big>,
    pub swap_hard_limit: Option<Big>,
}

/// NUMA placement of a machine.
pub struct NUMAParameters {
    pub node_set: Option<String>,
    pub mode: Option<u32>,
}

/// A state-changing call carrying one guarded 64-bit value.
pub struct U64Call {
    pub domain: u64,
    pub value: u64,
    pub flags: u32,
}

/// A state-changing call carrying a device name and a guarded value.
pub struct DevU64Call {
    pub domain: u64,
    pub dev: String,
    pub value: u64,
    pub flags: u32,
}

/// A migration call: destination, flags, URI and guarded bandwidth.
pub struct MigrateCall {
    pub domain: u64,
    pub dest: Option<ConnToken>,
    pub dest_uri: Option<String>,
    pub mig_uri: Option<String>,
    pub dxml: Option<String>,
    pub flags: u32,
    pub bandwidth: u64,
}

/// A guest-agent exchange: the command text goes out exactly as given.
pub struct AgentCall {
    pub domain: u64,
    pub cmd: String,
    pub timeout: i32,
    pub flags: u32,
}

/// The memory limits with each present value narrowed for the native
/// interface.
pub struct MemoryParametersCall {
    pub domain: u64,
    pub hard_limit: Option<u64>,
    pub soft_limit: Option<u64>,
    pub min_guarantee: Option<u64>,
    pub swap_hard_limit: Option<u64>,
    pub flags: u32,
}

/// The NUMA placement with the mode re-signed for the native interface.
pub struct NumaCall {
    pub domain: u64,
    pub node_set: Option<String>,
    pub mode: Option<i32>,
    pub flags: u32,
}

/// Whether a runtime value passes the narrowing guard.
pub open spec fn lossless(b: Big) -> bool {
    !b.sign_bit && b.words@.len() <= 1
}

/// The 64-bit value of a runtime value that passed the guard.
pub open spec fn narrowed(b: Big) -> int {
    b.value()
}

impl Machine {
    /// Wraps a domain handle under its connection.
    pub fn from_domain(domain: u64, con: ConnToken) -> (r: Machine)
        ensures
            r.handle == domain,
            r.con == con,
    {
        Machine { handle: domain, con }
    }

    /// Wraps what a lookup by name returned: the whole machine when the
    /// driver found one, nothing at all otherwise.
    pub fn lookup_by_name(con: &Connection, name: String, found: Option<u64>) -> (r: Option<
        Machine,
    >)
        ensures
            r is Some <==> (con.is_open() && found is Some),
            r matches Some(m) ==> Some(m.handle) == found && Some(m.con.handle) == con.handle,
    {
        let token = match con.token() {
            Some(t) => t,
            None => {
                return None;
            },
        };
        match found {
            Some(h) => Some(Machine { handle: h, con: token }),
            None => None,
        }
    }

    /// Wraps what a lookup by numeric id returned.
    pub fn lookup_by_id(conn: &Connection, id: u32, found: Option<u64>) -> (r: Option<Machine>)
        ensures
            r is Some <==> (conn.is_open() && found is Some),
            r matches Some(m) ==> Some(m.handle) == found && Some(m.con.handle) == conn.handle,
    {
        let token = match conn.token() {
            Some(t) => t,
            None => {
                return None;
            },
        };
        match found {
            Some(h) => Some(Machine { handle: h, con: token }),
            None => None,
        }
    }

    /// Wraps what a lookup by UUID string returned.
    pub fn lookup_by_uuid_string(conn: &Connection, uuid: String, found: Option<u64>) -> (r:
        Option<Machine>)
        ensures
            r is Some <==> (conn.is_open() && found is Some),
            r matches Some(m) ==> Some(m.handle) == found && Some(m.con.handle) == conn.handle,
    {
        let token = match conn.token() {
            Some(t) => t,
            None => {
                return None;
            },
        };
        match found {
            Some(h) => Some(Machine { handle: h, con: token }),
            None => None,
        }
    }

    /// Wraps the machine the driver created from an XML document.
    pub fn create_xml(conn: &Connection, xml: String, flags: u32, created: Option<u64>) -> (r:
        Option<Machine>)
        ensures
            r is Some <==> (conn.is_open() && created is Some),
            r matches Some(m) ==> Some(m.handle) == created && Some(m.con.handle) == conn.handle,
    {
        let token = match conn.token() {
            Some(t) => t,
            None => {
                return None;
            },
        };
        match created {
            Some(h) => Some(Machine { handle: h, con: token }),
            None => None,
        }
    }

    /// Wraps the machine the driver defined from an XML document; the
    /// document itself went to the driver verbatim.
    pub fn define_xml(conn: &Connection, xml: String, defined: Option<u64>) -> (r: Option<
        Machine,
    >)
        ensures
            r is Some <==> (conn.is_open() && defined is Some),
            r matches Some(m) ==> Some(m.handle) == defined && Some(m.con.handle) == conn.handle,
    {
        let token = match conn.token() {
            Some(t) => t,
            None => {
                return None;
            },
        };
        match defined {
            Some(h) => Some(Machine { handle: h, con: token }),
            None => None,
        }
    }

    /// Wraps the machine the driver defined from an XML document under
    /// definition flags.
    pub fn define_xml_flags(conn: &Connection, xml: String, flags: u32, defined: Option<u64>)
        -> (r: Option<Machine>)
        ensures
            r is Some <==> (conn.is_open() && defined is Some),
            r matches Some(m) ==> Some(m.handle) == defined && Some(m.con.handle) == conn.handle,
    {
        let token = match conn.token() {
            Some(t) => t,
            None => {
                return None;
            },
        };
        match defined {
            Some(h) => Some(Machine { handle: h, con: token }),
            None => None,
        }
    }

    /// The narrowing guard shared by every 64-bit parameter: the call to
    /// issue when the runtime delivered the value losslessly, with the
    /// value unchanged; nothing — before anything is sent — otherwise.
    fn guarded_call(&self, value: &Big, flags: u32) -> (r: Option<U64Call>)
        ensures
            r is Some <==> lossless(*value),
            r matches Some(c) ==> c.value as int == narrowed(*value) && c.domain == self.handle
                && c.flags == flags,
    {
        let (_signed, v, ok) = value.get_u64();
        if !ok {
            return None;
        }
        Some(U64Call { domain: self.handle, value: v, flags })
    }

    /// The call raising the machine's memory ceiling; refused before the
    /// driver sees it when the value overflows the native width.
    pub fn set_max_memory(&self, memory: &Big) -> (r: Option<U64Call>)
        ensures
            r is Some <==> lossless(*memory),
            r matches Some(c) ==> c.value as int == narrowed(*memory) && c.domain == self.handle
                && c.flags == 0,
    {
        self.guarded_call(memory, 0)
    }

    /// The call setting the machine's current memory, guarded likewise.
    pub fn set_memory(&self, memory: &Big) -> (r: Option<U64Call>)
        ensures
            r is Some <==> lossless(*memory),
            r matches Some(c) ==> c.value as int == narrowed(*memory) && c.domain == self.handle
                && c.flags == 0,
    {
        self.guarded_call(memory, 0)
    }

    /// The call setting memory under modification-impact flags.
    pub fn set_memory_flags(&self, memory: &Big, flags: u32) -> (r: Option<U64Call>)
        ensures
            r is Some <==> lossless(*memory),
            r matches Some(c) ==> c.value as int == narrowed(*memory) && c.domain == self.handle
                && c.flags == flags,
    {
        self.guarded_call(memory, flags)
    }

    /// The call capping migration bandwidth, guarded likewise.
    pub fn migrate_set_max_speed(&self, bandwidth: &Big, flags: u32) -> (r: Option<U64Call>)
        ensures
            r is Some <==> lossless(*bandwidth),
            r matches Some(c) ==> c.value as int == narrowed(*bandwidth) && c.domain
                == self.handle && c.flags == flags,
    {
        self.guarded_call(bandwidth, flags)
    }

    /// The call sizing the migration compression cache, guarded likewise.
    pub fn migrate_set_compression_cache(&self, size: &Big, flags: u32) -> (r: Option<U64Call>)
        ensures
            r is Some <==> lossless(*size),
            r matches Some(c) ==> c.value as int == narrowed(*size) && c.domain == self.handle
                && c.flags == flags,
    {
        self.guarded_call(size, flags)
    }

    /// The call bounding migration downtime, guarded likewise.
    pub fn migrate_set_max_downtime(&self, downtime: &Big, flags: u32) -> (r: Option<U64Call>)
        ensures
            r is Some <==> lossless(*downtime),
            r matches Some(c) ==> c.value as int == narrowed(*downtime) && c.domain
                == self.handle && c.flags == flags,
    {
        self.guarded_call(downtime, flags)
    }

    /// The call arming a block threshold on a device, guarded likewise;
    /// the device name goes out verbatim.
    pub fn set_block_threshold(&self, dev: String, threshold: &Big, flags: u32) -> (r: Option<
        DevU64Call,
    >)
        ensures
            r is Some <==> lossless(*threshold),
            r matches Some(c) ==> c.value as int == narrowed(*threshold) && c.domain
                == self.handle && c.flags == flags && c.dev@ == dev@,
    {
        let (_signed, v, ok) = threshold.get_u64();
        if !ok {
            return None;
        }
        Some(DevU64Call { domain: self.handle, dev, value: v, flags })
    }

    /// The call resizing a block device, guarded likewise.
    pub fn block_resize(&self, disk: String, size: &Big, flags: u32) -> (r: Option<DevU64Call>)
        ensures
            r is Some <==> lossless(*size),
            r matches Some(c) ==> c.value as int == narrowed(*size) && c.domain == self.handle
                && c.flags == flags && c.dev@ == disk@,
    {
        let (_signed, v, ok) = size.get_u64();
        if !ok {
            return None;
        }
        Some(DevU64Call { domain: self.handle, dev: disk, value: v, flags })
    }

    /// The migration to another connection, guarded likewise; the URI
    /// goes out verbatim.
    pub fn migrate(&self, dconn: &Connection, flags: u32, uri: String, bandwidth: &Big) -> (r:
        Option<MigrateCall>)
        ensures
            r is Some <==> (lossless(*bandwidth) && dconn.is_open()),
            r matches Some(c) ==> c.bandwidth as int == narrowed(*bandwidth) && c.domain
                == self.handle && c.flags == flags && (c.mig_uri matches Some(u) && u@ == uri@)
                && (c.dest matches Some(t) && Some(t.handle) == dconn.handle),
    {
        let (_signed, v, ok) = bandwidth.get_u64();
        if !ok {
            return None;
        }
        let token = match dconn.token() {
            Some(t) => t,
            None => {
                return None;
            },
        };
        Some(MigrateCall {
            domain: self.handle,
            dest: Some(token),
            dest_uri: None,
            mig_uri: Some(uri),
            dxml: None,
            flags,
            bandwidth: v,
        })
    }

    /// Migration with a replacement domain document, guarded likewise.
    pub fn migrate_with_xml(
        &self,
        dconn: &Connection,
        dxml: String,
        flags: u32,
        uri: String,
        bandwidth: &Big,
    ) -> (r: Option<MigrateCall>)
        ensures
            r is Some <==> (lossless(*bandwidth) && dconn.is_open()),
            r matches Some(c) ==> c.bandwidth as int == narrowed(*bandwidth) && c.domain
                == self.handle && c.flags == flags && (c.mig_uri matches Some(u) && u@ == uri@)
                && (c.dxml matches Some(x) && x@ == dxml@) && (c.dest matches Some(t) && Some(
                t.handle,
            ) == dconn.handle),
    {
        let (_signed, v, ok) = bandwidth.get_u64();
        if !ok {
            return None;
        }
        let token = match dconn.token() {
            Some(t) => t,
            None => {
                return None;
            },
        };
        Some(MigrateCall {
            domain: self.handle,
            dest: Some(token),
            dest_uri: None,
            mig_uri: Some(uri),
            dxml: Some(dxml),
            flags,
            bandwidth: v,
        })
    }

    /// Migration straight to a URI, guarded likewise.
    pub fn migrate_to_uri(&self, uri: String, flags: u32, bandwidth: &Big) -> (r: Option<
        MigrateCall,
    >)
        ensures
            r is Some <==> lossless(*bandwidth),
            r matches Some(c) ==> c.bandwidth as int == narrowed(*bandwidth) && c.domain
                == self.handle && c.flags == flags && (c.mig_uri matches Some(u) && u@ == uri@)
                && c.dest is None,
    {
        let (_signed, v, ok) = bandwidth.get_u64();
        if !ok {
            return None;
        }
        Some(MigrateCall {
            domain: self.handle,
            dest: None,
            dest_uri: None,
            mig_uri: Some(uri),
            dxml: None,
            flags,
            bandwidth: v,
        })
    }

    /// Migration to a URI with separate destination URI and document,
    /// guarded likewise.
    pub fn migrate_to_uri_with_xml(
        &self,
        dconn_uri: String,
        mig_uri: String,
        dxml: String,
        flags: u32,
        bandwidth: &Big,
    ) -> (r: Option<MigrateCall>)
        ensures
            r is Some <==> lossless(*bandwidth),
            r matches Some(c) ==> c.bandwidth as int == narrowed(*bandwidth) && c.domain
                == self.handle && c.flags == flags && (c.dest_uri matches Some(d) && d@
                == dconn_uri@) && (c.mig_uri matches Some(u) && u@ == mig_uri@) && (
            c.dxml matches Some(x) && x@ == dxml@) && c.dest is None,
    {
        let (_signed, v, ok) = bandwidth.get_u64();
        if !ok {
            return None;
        }
        Some(MigrateCall {
            domain: self.handle,
            dest: None,
            dest_uri: Some(dconn_uri),
            mig_uri: Some(mig_uri),
            dxml: Some(dxml),
            flags,
            bandwidth: v,
        })
    }

    /// The memory limits call: every present field must pass the guard,
    /// or the whole call is refused before the driver sees it.
    pub fn set_memory_parameters(&self, params: MemoryParameters, flags: u32) -> (r: Option<
        MemoryParametersCall,
    >)
        ensures
            r is Some <==> {
                &&& (params.hard_limit matches Some(b) ==> lossless(b))
                &&& (params.soft_limit matches Some(b) ==> lossless(b))
                &&& (params.min_guarantee matches Some(b) ==> lossless(b))
                &&& (params.swap_hard_limit matches Some(b) ==> lossless(b))
            },
            r matches Some(c) ==> {
                &&& c.domain == self.handle
                &&& c.flags == flags
                &&& (c.hard_limit is Some <==> params.hard_limit is Some)
                &&& (c.soft_limit is Some <==> params.soft_limit is Some)
                &&& (c.min_guarantee is Some <==> params.min_guarantee is Some)
                &&& (c.swap_hard_limit is Some <==> params.swap_hard_limit is Some)
                &&& (c.hard_limit matches Some(v) ==> params.hard_limit matches Some(b) && v
                    as int == narrowed(b))
                &&& (c.soft_limit matches Some(v) ==> params.soft_limit matches Some(b) && v
                    as int == narrowed(b))
                &&& (c.min_guarantee matches Some(v) ==> params.min_guarantee matches Some(b)
                    && v as int == narrowed(b))
                &&& (c.swap_hard_limit matches Some(v) ==> params.swap_hard_limit matches Some(
                    b,
                ) && v as int == narrowed(b))
            },
    {
        let hard_limit = match narrow_field(&params.hard_limit) {
            Ok(v) => v,
            Err(()) => {
                return None;
            },
        };
        let soft_limit = match narrow_field(&params.soft_limit) {
            Ok(v) => v,
            Err(()) => {
                return None;
            },
        };
        let min_guarantee = match narrow_field(&params.min_guarantee) {
            Ok(v) => v,
            Err(()) => {
                return None;
            },
        };
        let swap_hard_limit = match narrow_field(&params.swap_hard_limit) {
            Ok(v) => v,
            Err(()) => {
                return None;
            },
        };
        Some(MemoryParametersCall {
            domain: self.handle,
            hard_limit,
            soft_limit,
            min_guarantee,
            swap_hard_limit,
            flags,
        })
    }

    /// The guest-agent exchange: the command text is sent exactly as
    /// given and the reply comes back through the driver.
    pub fn qemu_agent_command(&self, cmd: String, timeout: i32, flags: u32) -> (r: AgentCall)
        ensures
            r.domain == self.handle,
            r.cmd@ == cmd@,
            r.timeout == timeout,
            r.flags == flags,
    {
        AgentCall { domain: self.handle, cmd, timeout, flags }
    }

    /// The monitor exchange, likewise verbatim.
    pub fn qemu_monitor_command(&self, cmd: String, flags: u32) -> (r: AgentCall)
        ensures
            r.domain == self.handle,
            r.cmd@ == cmd@,
            r.timeout == 0,
            r.flags == flags,
    {
        AgentCall { domain: self.handle, cmd, timeout: 0, flags }
    }

    /// Absorbs the driver's account of the machine, wrapping the 64-bit
    /// quantities for the runtime.
    pub fn get_info(&self, fetched: Option<(u32, u64, u64, u32, u64)>) -> (r: Option<
        MachineInfo,
    >)
        ensures
            r is Some <==> fetched is Some,
            r matches Some(info) ==> fetched matches Some(f) && info.state == f.0
                && info.max_mem.value() == f.1 as int && info.memory.value() == f.2 as int
                && info.nr_virt_cpu == f.3 && info.cpu_time.value() == f.4 as int,
    {
        match fetched {
            Some((state, max_mem, memory, nr_virt_cpu, cpu_time)) => Some(MachineInfo {
                state,
                max_mem: Big::from_u64(max_mem),
                memory: Big::from_u64(memory),
                nr_virt_cpu,
                cpu_time: Big::from_u64(cpu_time),
            }),
            None => None,
        }
    }

    /// Absorbs the run state and its reason.
    pub fn get_state(&self, fetched: Option<(u32, i32)>) -> (r: Option<StateResult>)
        ensures
            r is Some <==> fetched is Some,
            r matches Some(s) ==> fetched matches Some(f) && s.result == f.0 && s.reason == f.1,
    {
        match fetched {
            Some((state, reason)) => Some(StateResult { result: state, reason }),
            None => None,
        }
    }

    /// Absorbs a block device's sizes.
    pub fn get_block_info(&self, disk: String, flags: u32, fetched: Option<(u64, u64, u64)>)
        -> (r: Option<BlockInfo>)
        ensures
            r is Some <==> fetched is Some,
            r matches Some(b) ==> fetched matches Some(f) && b.capacity.value() == f.0 as int
                && b.allocation.value() == f.1 as int && b.physical.value() == f.2 as int,
    {
        match fetched {
            Some((capacity, allocation, physical)) => Some(BlockInfo {
                capacity: Big::from_u64(capacity),
                allocation: Big::from_u64(allocation),
                physical: Big::from_u64(physical),
            }),
            None => None,
        }
    }

    /// Absorbs the guest's clock.
    pub fn get_time(&self, flags: u32, fetched: Option<(i64, i32)>) -> (r: Option<Time>)
        ensures
            r is Some <==> fetched is Some,
            r matches Some(t) ==> fetched matches Some(f) && t.seconds == f.0 && t.nseconds
                == f.1,
    {
        match fetched {
            Some((seconds, nseconds)) => Some(Time { seconds, nseconds }),
            None => None,
        }
    }

    /// Absorbs one interface's traffic counters, in the driver's order.
    pub fn interface_stats(
        &self,
        path: String,
        fetched: Option<(i64, i64, i64, i64, i64, i64, i64, i64)>,
    ) -> (r: Option<InterfaceStats>)
        ensures
            r is Some <==> fetched is Some,
            r matches Some(s) ==> fetched matches Some(f) && s.rx_bytes == f.0 && s.rx_packets
                == f.1 && s.rx_errs == f.2 && s.rx_drop == f.3 && s.tx_bytes == f.4
                && s.tx_packets == f.5 && s.tx_errs == f.6 && s.tx_drop == f.7,
    {
        match fetched {
            Some((rx_bytes, rx_packets, rx_errs, rx_drop, tx_bytes, tx_packets, tx_errs,
                tx_drop)) => Some(InterfaceStats {
                rx_bytes,
                rx_packets,
                rx_errs,
                rx_drop,
                tx_bytes,
                tx_packets,
                tx_errs,
                tx_drop,
            }),
            None => None,
        }
    }

    /// Absorbs the memory statistics, keeping every entry and its order.
    pub fn memory_stats(&self, flags: u32, fetched: Option<Vec<(u32, u64)>>) -> (r: Option<Vec<
        MemoryStat,
    >>)
        ensures
            r is Some <==> fetched is Some,
            r matches Some(v) ==> fetched matches Some(f) && v@.len() == f@.len() && forall|
                i: int,
            |
                0 <= i < v@.len() ==> (#[trigger] v@[i]).tag == f@[i].0 && v@[i].val.value()
                    == f@[i].1 as int,
    {
        match fetched {
            Some(list) => {
                let mut stats: Vec<MemoryStat> = Vec::new();
                let len = list.len();
                let mut i: usize = 0;
                while i < len
                    invariant
                        i <= len,
                        len == list@.len(),
                        stats@.len() == i,
                        forall|k: int|
                            0 <= k < i ==> (#[trigger] stats@[k]).tag == list@[k].0
                                && stats@[k].val.value() == list@[k].1 as int,
                    decreases len - i,
                {
                    let (tag, val) = list[i];
                    stats.push(MemoryStat { tag, val: Big::from_u64(val) });
                    i = i + 1;
                }
                Some(stats)
            },
            None => None,
        }
    }

    /// Absorbs the driver's memory limits, wrapped for the runtime.
    pub fn get_memory_parameters(
        &self,
        flags: u32,
        fetched: Option<(Option<u64>, Option<u64>, Option<u64>, Option<u64>)>,
    ) -> (r: Option<MemoryParameters>)
        ensures
            r is Some <==> fetched is Some,
            r matches Some(p) ==> fetched matches Some(f) && {
                &&& (p.hard_limit is Some <==> f.0 is Some)
                &&& (p.soft_limit is Some <==> f.1 is Some)
                &&& (p.min_guarantee is Some <==> f.2 is Some)
                &&& (p.swap_hard_limit is Some <==> f.3 is Some)
                &&& (p.hard_limit matches Some(b) ==> f.0 matches Some(v) && b.value() == v
                    as int)
                &&& (p.soft_limit matches Some(b) ==> f.1 matches Some(v) && b.value() == v
                    as int)
                &&& (p.min_guarantee matches Some(b) ==> f.2 matches Some(v) && b.value() == v
                    as int)
                &&& (p.swap_hard_limit matches Some(b) ==> f.3 matches Some(v) && b.value() == v
                    as int)
            },
    {
        match fetched {
            Some((hard, soft, min, swap)) => Some(MemoryParameters {
                hard_limit: wrap_field(hard),
                soft_limit: wrap_field(soft),
                min_guarantee: wrap_field(min),
                swap_hard_limit: wrap_field(swap),
            }),
            None => None,
        }
    }

    /// Absorbs the NUMA placement.
    pub fn get_numa_parameters(&self, flags: u32, fetched: Option<(Option<String>, Option<i32>)>)
        -> (r: Option<NUMAParameters>)
        ensures
            r is Some <==> fetched is Some,
            r matches Some(p) ==> fetched matches Some(f) && {
                &&& (p.node_set == f.0)
                &&& (p.mode is Some <==> f.1 is Some)
                &&& (p.mode matches Some(m) ==> f.1 matches Some(v) && m == v as u32)
            },
    {
        match fetched {
            Some((node_set, mode)) => Some(NUMAParameters {
                node_set,
                mode: match mode {
                    Some(m) => Some(#[verifier::truncate] (m as u32)),
                    None => None,
                },
            }),
            None => None,
        }
    }

    /// Hands the driver's answer for `get_name` through untouched.
    pub fn get_name(&self, outcome: Option<String>) -> (r: Option<String>)
        ensures
            r == outcome,
    {
        outcome
    }

    /// Hands the driver's answer for `get_os_type` through untouched.
    pub fn get_os_type(&self, outcome: Option<String>) -> (r: Option<String>)
        ensures
            r == outcome,
    {
        outcome
    }

    /// Hands the driver's answer for `get_hostname` through untouched.
    pub fn get_hostname(&self, flags: u32, outcome: Option<String>) -> (r: Option<String>)
        ensures
            r == outcome,
    {
        outcome
    }

    /// Hands the driver's answer for `get_uuid_string` through untouched.
    pub fn get_uuid_string(&self, outcome: Option<String>) -> (r: Option<String>)
        ensures
            r == outcome,
    {
        outcome
    }

    /// Hands the driver's answer for `get_id` through untouched.
    pub fn get_id(&self, outcome: Option<u32>) -> (r: Option<u32>)
        ensures
            r == outcome,
    {
        outcome
    }

    /// Hands the driver's answer for `get_xml_desc` through untouched.
    pub fn get_xml_desc(&self, flags: u32, outcome: Option<String>) -> (r: Option<String>)
        ensures
            r == outcome,
    {
        outcome
    }

    /// Hands the driver's answer for `create` through untouched.
    pub fn create(&self, outcome: Option<u32>) -> (r: Option<u32>)
        ensures
            r == outcome,
    {
        outcome
    }

    /// Hands the driver's answer for `create_with_flags` through untouched.
    pub fn create_with_flags(&self, flags: u32, outcome: Option<u32>) -> (r: Option<u32>)
        ensures
            r == outcome,
    {
        outcome
    }

    /// Hands the driver's answer for `destroy` through untouched.
    pub fn destroy(&self, outcome: Option<()>) -> (r: Option<()>)
        ensures
            r == outcome,
    {
        outcome
    }

    /// Hands the driver's answer for `reset` through untouched.
    pub fn reset(&self, outcome: Option<u32>) -> (r: Option<u32>)
        ensures
            r == outcome,
    {
        outcome
    }

    /// Hands the driver's answer for `destroy_flags` through untouched.
    pub fn destroy_flags(&self, flags: u32, outcome: Option<u32>) -> (r: Option<u32>)
        ensures
            r == outcome,
    {
        outcome
    }

    /// Hands the driver's answer for `shutdown` through untouched.
    pub fn shutdown(&self, outcome: Option<u32>) -> (r: Option<u32>)
        ensures
            r == outcome,
    {
        outcome
    }

    /// Hands the driver's answer for `reboot` through untouched.
    pub fn reboot(&self, flags: u32, outcome: Option<()>) -> (r: Option<()>)
        ensures
            r == outcome,
    {
        outcome
    }

    /// Hands the driver's answer for `suspend` through untouched.
    pub fn suspend(&self, outcome: Option<u32>) -> (r: Option<u32>)
        ensures
            r == outcome,
    {
        outcome
    }

    /// Hands the driver's answer for `resume` through untouched.
    pub fn resume(&self, outcome: Option<u32>) -> (r: Option<u32>)
        ensures
            r == outcome,
    {
        outcome
    }

    /// Hands the driver's answer for `is_active` through untouched.
    pub fn is_active(&self, outcome: Option<bool>) -> (r: Option<bool>)
        ensures
            r == outcome,
    {
        outcome
    }

    /// Collapses the driver's answer for `undefine` to the success marker:
    /// zero when the driver succeeded, nothing when it failed.
    pub fn undefine(&self, outcome: Option<u32>) -> (r: Option<u32>)
        ensures
            r is Some <==> outcome is Some,
            r matches Some(v) ==> v == 0,
    {
        match outcome {
            Some(_) => Some(0),
            None => None,
        }
    }

    /// Collapses the driver's answer for `undefine_flags` to the success marker:
    /// zero when the driver succeeded, nothing when it failed.
    pub fn undefine_flags(&self, flags: u32, outcome: Option<u32>) -> (r: Option<u32>)
        ensures
            r is Some <==> outcome is Some,
            r matches Some(v) ==> v == 0,
    {
        match outcome {
            Some(_) => Some(0),
            None => None,
        }
    }

    /// Hands the driver's answer for `is_updated` through untouched.
    pub fn is_updated(&self, outcome: Option<bool>) -> (r: Option<bool>)
        ensures
            r == outcome,
    {
        outcome
    }

    /// Hands the driver's answer for `get_autostart` through untouched.
    pub fn get_autostart(&self, outcome: Option<bool>) -> (r: Option<bool>)
        ensures
            r == outcome,
    {
        outcome
    }

    /// Hands the driver's answer for `set_autostart` through untouched.
    pub fn set_autostart(&self, autostart: bool, outcome: Option<bool>) -> (r: Option<bool>)
        ensures
            r == outcome,
    {
        outcome
    }

    /// Hands the driver's answer for `get_max_vcpus` through untouched.
    pub fn get_max_vcpus(&self, outcome: Option<u64>) -> (r: Option<u64>)
        ensures
            r == outcome,
    {
        outcome
    }

    /// Hands the driver's answer for `set_memory_stats_period` through untouched.
    pub fn set_memory_stats_period(&self, period: i32, flags: u32, outcome: Option<bool>) -> (r: Option<bool>)
        ensures
            r == outcome,
    {
        outcome
    }

    /// Hands the driver's answer for `set_vcpus` through untouched.
    pub fn set_vcpus(&self, vcpus: u32, outcome: Option<bool>) -> (r: Option<bool>)
        ensures
            r == outcome,
    {
        outcome
    }

    /// Hands the driver's answer for `set_vcpus_flags` through untouched.
    pub fn set_vcpus_flags(&self, vcpus: u32, flags: u32, outcome: Option<bool>) -> (r: Option<bool>)
        ensures
            r == outcome,
    {
        outcome
    }

    /// Hands the driver's answer for `get_vcpus_flags` through untouched.
    pub fn get_vcpus_flags(&self, flags: u32, outcome: Option<u32>) -> (r: Option<u32>)
        ensures
            r == outcome,
    {
        outcome
    }

    /// Hands the driver's answer for `migrate_get_max_speed` through untouched.
    pub fn migrate_get_max_speed(&self, flags: u32, outcome: Option<u64>) -> (r: Option<u64>)
        ensures
            r == outcome,
    {
        outcome
    }

    /// Hands the driver's answer for `migrate_get_compression_cache` through untouched.
    pub fn migrate_get_compression_cache(&self, flags: u32, outcome: Option<u64>) -> (r: Option<u64>)
        ensures
            r == outcome,
    {
        outcome
    }

    /// Hands the driver's answer for `set_time` through untouched.
    pub fn set_time(&self, seconds: i64, nseconds: i32, flags: u32, outcome: Option<u32>) -> (r: Option<u32>)
        ensures
            r == outcome,
    {
        outcome
    }

    /// Hands the driver's answer for `pin_vcpu` through untouched.
    pub fn pin_vcpu(&self, vcpu: u32, cpumap: &[u8], outcome: Option<u32>) -> (r: Option<u32>)
        ensures
            r == outcome,
    {
        outcome
    }

    /// Hands the driver's answer for `pin_vcpu_flags` through untouched.
    pub fn pin_vcpu_flags(&self, vcpu: u32, cpumap: &[u8], flags: u32, outcome: Option<u32>) -> (r: Option<u32>)
        ensures
            r == outcome,
    {
        outcome
    }

    /// Hands the driver's answer for `pin_emulator` through untouched.
    pub fn pin_emulator(&self, cpumap: &[u8], flags: u32, outcome: Option<u32>) -> (r: Option<u32>)
        ensures
            r == outcome,
    {
        outcome
    }

    /// Hands the driver's answer for `rename` through untouched.
    pub fn rename(&self, new_name: String, flags: u32, outcome: Option<u32>) -> (r: Option<u32>)
        ensures
            r == outcome,
    {
        outcome
    }

    /// Hands the driver's answer for `set_user_password` through untouched.
    pub fn set_user_password(&self, user: String, password: String, flags: u32, outcome: Option<u32>) -> (r: Option<u32>)
        ensures
            r == outcome,
    {
        outcome
    }

    /// Hands the driver's answer for `open_graphics` through untouched.
    pub fn open_graphics(&self, idx: u32, fd: i32, flags: u32, outcome: Option<u32>) -> (r: Option<u32>)
        ensures
            r == outcome,
    {
        outcome
    }

    /// Hands the driver's answer for `open_graphics_fd` through untouched.
    pub fn open_graphics_fd(&self, idx: u32, flags: u32, outcome: Option<u32>) -> (r: Option<u32>)
        ensures
            r == outcome,
    {
        outcome
    }

    /// Hands the driver's answer for `attach_device` through untouched.
    pub fn attach_device(&self, xml: String, outcome: Option<u32>) -> (r: Option<u32>)
        ensures
            r == outcome,
    {
        outcome
    }

    /// Hands the driver's answer for `attach_device_flags` through untouched.
    pub fn attach_device_flags(&self, xml: String, flags: u32, outcome: Option<u32>) -> (r: Option<u32>)
        ensures
            r == outcome,
    {
        outcome
    }

    /// Hands the driver's answer for `detach_device` through untouched.
    pub fn detach_device(&self, xml: String, outcome: Option<u32>) -> (r: Option<u32>)
        ensures
            r == outcome,
    {
        outcome
    }

    /// Hands the driver's answer for `detach_device_flags` through untouched.
    pub fn detach_device_flags(&self, xml: String, flags: u32, outcome: Option<u32>) -> (r: Option<u32>)
        ensures
            r == outcome,
    {
        outcome
    }

    /// Hands the driver's answer for `update_device_flags` through untouched.
    pub fn update_device_flags(&self, xml: String, flags: u32, outcome: Option<u32>) -> (r: Option<u32>)
        ensures
            r == outcome,
    {
        outcome
    }

    /// Hands the driver's answer for `managed_save` through untouched.
    pub fn managed_save(&self, flags: u32, outcome: Option<u32>) -> (r: Option<u32>)
        ensures
            r == outcome,
    {
        outcome
    }

    /// Hands the driver's answer for `has_managed_save` through untouched.
    pub fn has_managed_save(&self, flags: u32, outcome: Option<bool>) -> (r: Option<bool>)
        ensures
            r == outcome,
    {
        outcome
    }

    /// Hands the driver's answer for `managed_save_remove` through untouched.
    pub fn managed_save_remove(&self, flags: u32, outcome: Option<u32>) -> (r: Option<u32>)
        ensures
            r == outcome,
    {
        outcome
    }

    /// Hands the driver's answer for `core_dump` through untouched.
    pub fn core_dump(&self, to: String, flags: u32, outcome: Option<u32>) -> (r: Option<u32>)
        ensures
            r == outcome,
    {
        outcome
    }

    /// Hands the driver's answer for `core_dump_with_format` through untouched.
    pub fn core_dump_with_format(&self, to: String, dump_format: u32, flags: u32, outcome: Option<u32>) -> (r: Option<u32>)
        ensures
            r == outcome,
    {
        outcome
    }

    /// Hands the driver's answer for `set_metadata` through untouched.
    pub fn set_metadata(&self, kind: i32, metadata: String, key: String, uri: String, flags: u32, outcome: Option<u32>) -> (r: Option<u32>)
        ensures
            r == outcome,
    {
        outcome
    }

    /// Hands the driver's answer for `get_metadata` through untouched.
    pub fn get_metadata(&self, kind: i32, uri: String, flags: u32, outcome: Option<String>) -> (r: Option<String>)
        ensures
            r == outcome,
    {
        outcome
    }

    /// Collapses the driver's answer for `domain_restore` to the success marker:
    /// zero when the driver succeeded, nothing when it failed.
    pub fn domain_restore(conn: &Connection, path: String, outcome: Option<u32>) -> (r: Option<u32>)
        ensures
            r is Some <==> outcome is Some,
            r matches Some(v) ==> v == 0,
    {
        match outcome {
            Some(_) => Some(0),
            None => None,
        }
    }

    /// Collapses the driver's answer for `domain_restore_flags` to the success marker:
    /// zero when the driver succeeded, nothing when it failed.
    pub fn domain_restore_flags(conn: &Connection, path: String, flags: u32, outcome: Option<u32>) -> (r: Option<u32>)
        ensures
            r is Some <==> outcome is Some,
            r matches Some(v) ==> v == 0,
    {
        match outcome {
            Some(_) => Some(0),
            None => None,
        }
    }

    /// Hands the driver's answer for `save_image_get_xml_desc` through untouched.
    pub fn save_image_get_xml_desc(conn: &Connection, file: String, flags: u32, outcome: Option<String>) -> (r: Option<String>)
        ensures
            r == outcome,
    {
        outcome
    }

    /// Hands the driver's answer for `save_image_define_xml` through untouched.
    pub fn save_image_define_xml(conn: &Connection, file: String, dxml: String, flags: u32, outcome: Option<u32>) -> (r: Option<u32>)
        ensures
            r == outcome,
    {
        outcome
    }

    /// Collapses the driver's answer for `free` to the success marker:
    /// zero when the driver released the domain, nothing when it failed.
    /// The wrapper itself keeps its fields; what remains usable after a
    /// release is the caller's business, as the handle discipline is not
    /// enforced in-process.
    pub fn free(&mut self, outcome: Option<u32>) -> (r: Option<u32>)
        ensures
            final(self).handle == old(self).handle,
            final(self).con == old(self).con,
            r is Some <==> outcome is Some,
            r matches Some(v) ==> v == 0,
    {
        match outcome {
            Some(_) => Some(0),
            None => None,
        }
    }

    /// The NUMA placement call: the node set goes out verbatim, the mode
    /// is re-signed for the native interface.
    pub fn set_numa_parameters(&self, params: NUMAParameters, flags: u32) -> (r: NumaCall)
        ensures
            r.domain == self.handle,
            r.flags == flags,
            r.node_set == params.node_set,
            r.mode is Some <==> params.mode is Some,
            r.mode matches Some(m) ==> params.mode matches Some(v) && m == v as i32,
    {
        NumaCall {
            domain: self.handle,
            node_set: params.node_set,
            mode: match params.mode {
                Some(m) => Some(#[verifier::truncate] (m as i32)),
                None => None,
            },
            flags,
        }
    }
}

/// Narrows one optional runtime value for a call: absent stays absent,
/// present must pass the guard.
fn narrow_field(field: &Option<Big>) -> (r: Result<Option<u64>, ()>)
    ensures
        r is Ok <==> (field matches Some(b) ==> lossless(*b)),
        r matches Ok(o) ==> {
            &&& (o is Some <==> field is Some)
            &&& (o matches Some(v) ==> field matches Some(b) && v as int == narrowed(*b))
        },
{
    match field {
        Some(b) => {
            let (_signed, v, ok) = b.get_u64();
            if ok {
                Ok(Some(v))
            } else {
                Err(())
            }
        },
        None => Ok(None),
    }
}

/// Wraps one optional 64-bit value for the runtime.
fn wrap_field(v: Option<u64>) -> (r: Option<Big>)
    ensures
        r is Some <==> v is Some,
        r matches Some(b) ==> v matches Some(x) && b.value() == x as int,
{
    match v {
        Some(x) => Some(Big::from_u64(x)),
        None => None,
    }
}

} // verus!

//! The hypervisor connection: one optional native handle, opened once and
//! shared by the dependent resource wrappers as a plain token.
//!
//! The native library performs every call; a method here either absorbs
//! what the driver returned — never altering, reordering or inventing
//! data — or prepares exactly what is to be sent. The driver's result for
//! a call is handed in as the `fetched` (or `outcome`) argument.

use vstd::prelude::*;

verus! {

/// The shared reference a dependent resource keeps to the connection it
/// was created from.
#[derive(Clone, Copy, PartialEq, Eq, Structural)]
pub struct ConnToken {
    pub handle: u64,
}

/// A hypervisor connection: the native handle when one is open, and the
/// URI it was opened with.
pub struct Connection {
    pub handle: Option<u64>,
    pub uri: String,
}

impl Connection {
    /// Whether a handle is currently held.
    pub open spec fn is_open(&self) -> bool {
        self.handle is Some
    }

    /// Wraps the handle the driver opened for the given URI; no handle,
    /// no connection — never a half-made one.
    pub fn open(name: String, opened: Option<u64>) -> (r: Option<Connection>)
        ensures
            r is Some <==> opened is Some,
            r matches Some(c) ==> c.handle == opened && c.uri@ == name@,
    {
        match opened {
            Some(h) => Some(Connection { handle: Some(h), uri: name }),
            None => None,
        }
    }

    /// The handle every native call goes through; absent while closed.
    pub fn get_connection(&self) -> (r: Option<u64>)
        ensures
            r == self.handle,
    {
        self.handle
    }

    /// The token dependent resources keep; absent while closed.
    pub fn token(&self) -> (r: Option<ConnToken>)
        ensures
            r is Some <==> self.is_open(),
            r matches Some(t) ==> Some(t.handle) == self.handle,
    {
        match self.handle {
            Some(h) => Some(ConnToken { handle: h }),
            None => None,
        }
    }

    /// Gives up the handle so the embedder can close it natively. Closing
    /// a connection that is already closed — or was never opened — is a
    /// no-op, not a failure: nothing is returned and nothing changes but
    /// the absent handle.
    pub fn close(&mut self) -> (r: Option<u64>)
        ensures
            final(self).handle is None,
            final(self).uri == old(self).uri,
            r == old(self).handle,
    {
        let r = self.handle;
        self.handle = None;
        r
    }

    /// Wraps a freshly opened handle to the same URI: the clone-on-handoff
    /// reopening the native library asks of independent owners.
    pub fn reopen(&self, opened: Option<u64>) -> (r: Option<Connection>)
        ensures
            r is Some <==> opened is Some,
            r matches Some(c) ==> c.handle == opened && c.uri@ == self.uri@,
    {
        match opened {
            Some(h) => Some(Connection { handle: Some(h), uri: self.uri.clone() }),
            None => None,
        }
    }

    /// Hands the driver's answer for `is_alive` through untouched.
    pub fn is_alive(&self, fetched: Option<bool>) -> (r: Option<bool>)
        ensures
            r == fetched,
    {
        fetched
    }

    /// Hands the driver's answer for `get_sys_info` through untouched.
    pub fn get_sys_info(&self, flags: u32, fetched: Option<String>) -> (r: Option<String>)
        ensures
            r == fetched,
    {
        fetched
    }

    /// Hands the driver's answer for `get_max_vcpus` through untouched.
    pub fn get_max_vcpus(&self, attr: String, fetched: Option<u32>) -> (r: Option<u32>)
        ensures
            r == fetched,
    {
        fetched
    }

    /// Hands the driver's list through: same entries, same order, nothing filtered, renamed or added.
    pub fn get_cpu_models_names(&self, arch: String, flags: u32, fetched: Option<Vec<String>>) -> (r: Option<Vec<String>>)
        ensures
            r == fetched,
    {
        fetched
    }

    /// Hands the driver's answer for `is_encrypted` through untouched.
    pub fn is_encrypted(&self, fetched: Option<bool>) -> (r: Option<bool>)
        ensures
            r == fetched,
    {
        fetched
    }

    /// Hands the driver's answer for `is_secure` through untouched.
    pub fn is_secure(&self, fetched: Option<bool>) -> (r: Option<bool>)
        ensures
            r == fetched,
    {
        fetched
    }

    /// Hands the driver's list through: same entries, same order, nothing filtered, renamed or added.
    pub fn list_active_domain_ids(&self, fetched: Option<Vec<u32>>) -> (r: Option<Vec<u32>>)
        ensures
            r == fetched,
    {
        fetched
    }

    /// Hands the driver's list through: same entries, same order, nothing filtered, renamed or added.
    pub fn list_interfaces(&self, fetched: Option<Vec<String>>) -> (r: Option<Vec<String>>)
        ensures
            r == fetched,
    {
        fetched
    }

    /// Hands the driver's list through: same entries, same order, nothing filtered, renamed or added.
    pub fn list_networks(&self, fetched: Option<Vec<String>>) -> (r: Option<Vec<String>>)
        ensures
            r == fetched,
    {
        fetched
    }

    /// Hands the driver's list through: same entries, same order, nothing filtered, renamed or added.
    pub fn list_nw_filters(&self, fetched: Option<Vec<String>>) -> (r: Option<Vec<String>>)
        ensures
            r == fetched,
    {
        fetched
    }

    /// Hands the driver's list through: same entries, same order, nothing filtered, renamed or added.
    pub fn list_secrets(&self, fetched: Option<Vec<String>>) -> (r: Option<Vec<String>>)
        ensures
            r == fetched,
    {
        fetched
    }

    /// Hands the driver's list through: same entries, same order, nothing filtered, renamed or added.
    pub fn list_storage_pools(&self, fetched: Option<Vec<String>>) -> (r: Option<Vec<String>>)
        ensures
            r == fetched,
    {
        fetched
    }

    /// Hands the driver's list through: same entries, same order, nothing filtered, renamed or added.
    pub fn list_defined_domains(&self, fetched: Option<Vec<String>>) -> (r: Option<Vec<String>>)
        ensures
            r == fetched,
    {
        fetched
    }

    /// Hands the driver's list through: same entries, same order, nothing filtered, renamed or added.
    pub fn list_defined_interfaces(&self, fetched: Option<Vec<String>>) -> (r: Option<Vec<String>>)
        ensures
            r == fetched,
    {
        fetched
    }

    /// Hands the driver's list through: same entries, same order, nothing filtered, renamed or added.
    pub fn list_defined_storage_pools(&self, fetched: Option<Vec<String>>) -> (r: Option<Vec<String>>)
        ensures
            r == fetched,
    {
        fetched
    }

    /// Hands the driver's list through: same entries, same order, nothing filtered, renamed or added.
    pub fn list_defined_networks(&self, fetched: Option<Vec<String>>) -> (r: Option<Vec<String>>)
        ensures
            r == fetched,
    {
        fetched
    }

    /// Hands the driver's answer for `num_of_domains` through untouched.
    pub fn num_of_domains(&self, fetched: Option<u32>) -> (r: Option<u32>)
        ensures
            r == fetched,
    {
        fetched
    }

    /// Hands the driver's answer for `num_of_interfaces` through untouched.
    pub fn num_of_interfaces(&self, fetched: Option<u32>) -> (r: Option<u32>)
        ensures
            r == fetched,
    {
        fetched
    }

    /// Hands the driver's answer for `num_of_networks` through untouched.
    pub fn num_of_networks(&self, fetched: Option<u32>) -> (r: Option<u32>)
        ensures
            r == fetched,
    {
        fetched
    }

    /// Hands the driver's answer for `num_of_storage_pools` through untouched.
    pub fn num_of_storage_pools(&self, fetched: Option<u32>) -> (r: Option<u32>)
        ensures
            r == fetched,
    {
        fetched
    }

    /// Hands the driver's answer for `num_of_nw_filters` through untouched.
    pub fn num_of_nw_filters(&self, fetched: Option<u32>) -> (r: Option<u32>)
        ensures
            r == fetched,
    {
        fetched
    }

    /// Hands the driver's answer for `num_of_secrets` through untouched.
    pub fn num_of_secrets(&self, fetched: Option<u32>) -> (r: Option<u32>)
        ensures
            r == fetched,
    {
        fetched
    }

    /// Hands the driver's answer for `num_of_node_devices` through untouched.
    pub fn num_of_node_devices(&self, fetched: Option<u32>) -> (r: Option<u32>)
        ensures
            r == fetched,
    {
        fetched
    }

    /// Hands the driver's answer for `num_of_defined_domains` through untouched.
    pub fn num_of_defined_domains(&self, fetched: Option<u32>) -> (r: Option<u32>)
        ensures
            r == fetched,
    {
        fetched
    }

    /// Hands the driver's answer for `num_of_defined_interfaces` through untouched.
    pub fn num_of_defined_interfaces(&self, fetched: Option<u32>) -> (r: Option<u32>)
        ensures
            r == fetched,
    {
        fetched
    }

    /// Hands the driver's answer for `num_of_defined_networks` through untouched.
    pub fn num_of_defined_networks(&self, fetched: Option<u32>) -> (r: Option<u32>)
        ensures
            r == fetched,
    {
        fetched
    }

    /// Hands the driver's answer for `get_hyp_version` through untouched.
    pub fn get_hyp_version(&self, fetched: Option<u32>) -> (r: Option<u32>)
        ensures
            r == fetched,
    {
        fetched
    }

    /// Hands the driver's answer for `compare_cpu` through untouched.
    pub fn compare_cpu(&self, xml: String, flags: u32, fetched: Option<i32>) -> (r: Option<i32>)
        ensures
            r == fetched,
    {
        fetched
    }

    /// Hands the driver's answer for `get_free_memory` through untouched.
    pub fn get_free_memory(&self, fetched: Option<u64>) -> (r: Option<u64>)
        ensures
            r == fetched,
    {
        fetched
    }

    /// Hands the driver's answer for `set_keep_alive` through untouched.
    pub fn set_keep_alive(&self, interval: i32, count: u32, fetched: Option<i32>) -> (r: Option<i32>)
        ensures
            r == fetched,
    {
        fetched
    }

    /// Hands the driver's converted document through untouched.
    pub fn domain_xml_from_native(&self, nformat: String, nconfig: String, flags: u32, fetched: Option<String>) -> (r: Option<String>)
        ensures
            r == fetched,
    {
        fetched
    }

    /// Hands the driver's converted document through untouched.
    pub fn domain_xml_to_native(&self, nformat: String, dxml: String, flags: u32, fetched: Option<String>) -> (r: Option<String>)
        ensures
            r == fetched,
    {
        fetched
    }

    /// Hands the driver's answer for `get_domain_capabilities` through untouched.
    pub fn get_domain_capabilities(&self, emulatorbin: String, arch: String, machine: String, virttype: String, flags: u32, fetched: Option<String>) -> (r: Option<String>)
        ensures
            r == fetched,
    {
        fetched
    }

    /// Hands the driver's answer for `baseline_cpu` through untouched.
    pub fn baseline_cpu(&self, xmlcpus: Vec<String>, flags: u32, fetched: Option<String>) -> (r: Option<String>)
        ensures
            r == fetched,
    {
        fetched
    }

    /// Hands the driver's answer for `find_storage_pool_sources` through untouched.
    pub fn find_storage_pool_sources(&self, kind: String, srcspec: String, flags: u32, fetched: Option<String>) -> (r: Option<String>)
        ensures
            r == fetched,
    {
        fetched
    }

    /// Wraps each domain handle of the driver's list in its place, each
    /// machine sharing this connection: same order, nothing filtered or
    /// added.
    pub fn list_all_domains(&self, flags: u32, fetched: Option<Vec<u64>>) -> (r: Option<Vec<
        crate::machine::Machine,
    >>)
        ensures
            r is Some <==> (self.is_open() && fetched is Some),
            r matches Some(v) ==> fetched matches Some(h) && v@.len() == h@.len() && forall|
                i: int,
            |
                0 <= i < v@.len() ==> (#[trigger] v@[i]).handle == h@[i] && Some(
                    v@[i].con.handle,
                ) == self.handle,
    {
        let token = match self.token() {
            Some(t) => t,
            None => {
                return None;
            },
        };
        match fetched {
            Some(handles) => {
                let mut machines: Vec<crate::machine::Machine> = Vec::new();
                let len = handles.len();
                let mut i: usize = 0;
                while i < len
                    invariant
                        i <= len,
                        len == handles@.len(),
                        machines@.len() == i,
                        Some(token.handle) == self.handle,
                        forall|k: int|
                            0 <= k < i ==> (#[trigger] machines@[k]).handle == handles@[k]
                                && Some(machines@[k].con.handle) == self.handle,
                    decreases len - i,
                {
                    machines.push(crate::machine::Machine::from_domain(handles[i], token));
                    i = i + 1;
                }
                Some(machines)
            },
            None => None,
        }
    }

    /// Wraps each handle of the driver's list in its place: one wrapper
    /// per handle, same order, nothing filtered or added.
    pub fn list_all_networks(&self, flags: u32, fetched: Option<Vec<u64>>) -> (r: Option<Vec<crate::network::Network>>)
        ensures
            r is Some <==> fetched is Some,
            r matches Some(v) ==> fetched matches Some(h) && v@.len() == h@.len() && forall|
                i: int,
            |
                0 <= i < v@.len() ==> (#[trigger] v@[i]).handle == h@[i],
    {
        match fetched {
            Some(handles) => {
                let mut wrappers: Vec<crate::network::Network> = Vec::new();
                let len = handles.len();
                let mut i: usize = 0;
                while i < len
                    invariant
                        i <= len,
                        len == handles@.len(),
                        wrappers@.len() == i,
                        forall|k: int|
                            0 <= k < i ==> (#[trigger] wrappers@[k]).handle == handles@[k],
                    decreases len - i,
                {
                    wrappers.push(crate::network::Network::from_network(handles[i]));
                    i = i + 1;
                }
                Some(wrappers)
            },
            None => None,
        }
    }

    /// Wraps each handle of the driver's list in its place: one wrapper
    /// per handle, same order, nothing filtered or added.
    pub fn list_all_interfaces(&self, flags: u32, fetched: Option<Vec<u64>>) -> (r: Option<Vec<crate::interface::Interface>>)
        ensures
            r is Some <==> fetched is Some,
            r matches Some(v) ==> fetched matches Some(h) && v@.len() == h@.len() && forall|
                i: int,
            |
                0 <= i < v@.len() ==> (#[trigger] v@[i]).handle == h@[i],
    {
        match fetched {
            Some(handles) => {
                let mut wrappers: Vec<crate::interface::Interface> = Vec::new();
                let len = handles.len();
                let mut i: usize = 0;
                while i < len
                    invariant
                        i <= len,
                        len == handles@.len(),
                        wrappers@.len() == i,
                        forall|k: int|
                            0 <= k < i ==> (#[trigger] wrappers@[k]).handle == handles@[k],
                    decreases len - i,
                {
                    wrappers.push(crate::interface::Interface::from_interface(handles[i]));
                    i = i + 1;
                }
                Some(wrappers)
            },
            None => None,
        }
    }

    /// Wraps each handle of the driver's list in its place: one wrapper
    /// per handle, same order, nothing filtered or added.
    pub fn list_all_node_devices(&self, flags: u32, fetched: Option<Vec<u64>>) -> (r: Option<Vec<crate::node_device::NodeDevice>>)
        ensures
            r is Some <==> fetched is Some,
            r matches Some(v) ==> fetched matches Some(h) && v@.len() == h@.len() && forall|
                i: int,
            |
                0 <= i < v@.len() ==> (#[trigger] v@[i]).handle == h@[i],
    {
        match fetched {
            Some(handles) => {
                let mut wrappers: Vec<crate::node_device::NodeDevice> = Vec::new();
                let len = handles.len();
                let mut i: usize = 0;
                while i < len
                    invariant
                        i <= len,
                        len == handles@.len(),
                        wrappers@.len() == i,
                        forall|k: int|
                            0 <= k < i ==> (#[trigger] wrappers@[k]).handle == handles@[k],
                    decreases len - i,
                {
                    wrappers.push(crate::node_device::NodeDevice::from_node(handles[i]));
                    i = i + 1;
                }
                Some(wrappers)
            },
            None => None,
        }
    }

    /// Wraps each handle of the driver's list in its place: one wrapper
    /// per handle, same order, nothing filtered or added.
    pub fn list_all_secrets(&self, flags: u32, fetched: Option<Vec<u64>>) -> (r: Option<Vec<crate::secret::Secret>>)
        ensures
            r is Some <==> fetched is Some,
            r matches Some(v) ==> fetched matches Some(h) && v@.len() == h@.len() && forall|
                i: int,
            |
                0 <= i < v@.len() ==> (#[trigger] v@[i]).handle == h@[i],
    {
        match fetched {
            Some(handles) => {
                let mut wrappers: Vec<crate::secret::Secret> = Vec::new();
                let len = handles.len();
                let mut i: usize = 0;
                while i < len
                    invariant
                        i <= len,
                        len == handles@.len(),
                        wrappers@.len() == i,
                        forall|k: int|
                            0 <= k < i ==> (#[trigger] wrappers@[k]).handle == handles@[k],
                    decreases len - i,
                {
                    wrappers.push(crate::secret::Secret::from_secret(handles[i]));
                    i = i + 1;
                }
                Some(wrappers)
            },
            None => None,
        }
    }

    /// Wraps each handle of the driver's list in its place: one wrapper
    /// per handle, same order, nothing filtered or added.
    pub fn list_all_storage_pools(&self, flags: u32, fetched: Option<Vec<u64>>) -> (r: Option<Vec<crate::storage_pool::StoragePool>>)
        ensures
            r is Some <==> fetched is Some,
            r matches Some(v) ==> fetched matches Some(h) && v@.len() == h@.len() && forall|
                i: int,
            |
                0 <= i < v@.len() ==> (#[trigger] v@[i]).handle == h@[i],
    {
        match fetched {
            Some(handles) => {
                let mut wrappers: Vec<crate::storage_pool::StoragePool> = Vec::new();
                let len = handles.len();
                let mut i: usize = 0;
                while i < len
                    invariant
                        i <= len,
                        len == handles@.len(),
                        wrappers@.len() == i,
                        forall|k: int|
                            0 <= k < i ==> (#[trigger] wrappers@[k]).handle == handles@[k],
                    decreases len - i,
                {
                    wrappers.push(crate::storage_pool::StoragePool::from_storage_pool(handles[i]));
                    i = i + 1;
                }
                Some(wrappers)
            },
            None => None,
        }
    }

    /// Wraps each handle of the driver's list in its place: one wrapper
    /// per handle, same order, nothing filtered or added.
    pub fn list_all_nw_filters(&self, flags: u32, fetched: Option<Vec<u64>>) -> (r: Option<Vec<crate::nw_filter::NWFilter>>)
        ensures
            r is Some <==> fetched is Some,
            r matches Some(v) ==> fetched matches Some(h) && v@.len() == h@.len() && forall|
                i: int,
            |
                0 <= i < v@.len() ==> (#[trigger] v@[i]).handle == h@[i],
    {
        match fetched {
            Some(handles) => {
                let mut wrappers: Vec<crate::nw_filter::NWFilter> = Vec::new();
                let len = handles.len();
                let mut i: usize = 0;
                while i < len
                    invariant
                        i <= len,
                        len == handles@.len(),
                        wrappers@.len() == i,
                        forall|k: int|
                            0 <= k < i ==> (#[trigger] wrappers@[k]).handle == handles@[k],
                    decreases len - i,
                {
                    wrappers.push(crate::nw_filter::NWFilter::from_nw_filter(handles[i]));
                    i = i + 1;
                }
                Some(wrappers)
            },
            None => None,
        }
    }

    /// Wraps each statistics record of the driver's list in its place:
    /// same order, nothing filtered or added.
    pub fn get_all_domain_stats(&self, stats: u32, flags: u32, fetched: Option<Vec<u64>>) -> (r: Option<Vec<crate::domain_stats_record::DomainStatsRecord>>)
        ensures
            r is Some <==> fetched is Some,
            r matches Some(v) ==> fetched matches Some(h) && v@.len() == h@.len() && forall|
                i: int,
            |
                0 <= i < v@.len() ==> (#[trigger] v@[i]).stat == h@[i],
    {
        match fetched {
            Some(handles) => {
                let mut wrappers: Vec<crate::domain_stats_record::DomainStatsRecord> = Vec::new();
                let len = handles.len();
                let mut i: usize = 0;
                while i < len
                    invariant
                        i <= len,
                        len == handles@.len(),
                        wrappers@.len() == i,
                        forall|k: int|
                            0 <= k < i ==> (#[trigger] wrappers@[k]).stat == handles@[k],
                    decreases len - i,
                {
                    wrappers.push(crate::domain_stats_record::DomainStatsRecord::from_stat(handles[i]));
                    i = i + 1;
                }
                Some(wrappers)
            },
            None => None,
        }
    }

    /// Absorbs the host node account, field for field.
    pub fn get_node_info(
        &self,
        fetched: Option<(String, u64, u32, u32, u32, u32, u32, u32)>,
    ) -> (r: Option<crate::node_info::NodeInfo>)
        ensures
            r is Some <==> fetched is Some,
            r matches Some(n) ==> fetched matches Some(f) && n.model@ == f.0@ && n.memory == f.1
                && n.cpus == f.2 && n.mhz == f.3 && n.nodes == f.4 && n.sockets == f.5
                && n.cores == f.6 && n.threads == f.7,
    {
        match fetched {
            Some((model, memory, cpus, mhz, nodes, sockets, cores, threads)) => Some(
                crate::node_info::NodeInfo::from_node_info(
                    model,
                    memory,
                    cpus,
                    mhz,
                    nodes,
                    sockets,
                    cores,
                    threads,
                ),
            ),
            None => None,
        }
    }
}

} // verus!

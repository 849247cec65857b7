//! The host node account, held as plain values.

use vstd::prelude::*;

verus! {

/// What the driver reports of the host node.
pub struct NodeInfo {
    pub model: String,
    pub memory: u64,
    pub cpus: u32,
    pub mhz: u32,
    pub nodes: u32,
    pub sockets: u32,
    pub cores: u32,
    pub threads: u32,
}

impl NodeInfo {
    /// Wraps the node account the driver gave, field for field.
    pub fn from_node_info(
        model: String,
        memory: u64,
        cpus: u32,
        mhz: u32,
        nodes: u32,
        sockets: u32,
        cores: u32,
        threads: u32,
    ) -> (r: NodeInfo)
        ensures
            r.model@ == model@,
            r.memory == memory,
            r.cpus == cpus,
            r.mhz == mhz,
            r.nodes == nodes,
            r.sockets == sockets,
            r.cores == cores,
            r.threads == threads,
    {
        NodeInfo { model, memory, cpus, mhz, nodes, sockets, cores, threads }
    }
}

} // verus!

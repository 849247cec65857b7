//! The node device wrapper: one native device handle.

use vstd::prelude::*;

verus! {

/// The node device wrapper
pub struct NodeDevice {
    pub handle: u64,
}

impl NodeDevice {
    /// The native handle this wrapper holds.
    pub fn get(&self) -> (r: u64)
        ensures
            r == self.handle,
    {
        self.handle
    }

    /// Wraps a native handle.
    pub fn from_node(handle: u64) -> (r: NodeDevice)
        ensures
            r.handle == handle,
    {
        NodeDevice { handle }
    }
}

} // verus!

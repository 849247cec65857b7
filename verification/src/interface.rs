//! The host interface wrapper: one native interface handle.

use vstd::prelude::*;

verus! {

/// The host interface wrapper
pub struct Interface {
    pub handle: u64,
}

impl Interface {
    /// The native handle this wrapper holds.
    pub fn get(&self) -> (r: u64)
        ensures
            r == self.handle,
    {
        self.handle
    }

    /// Wraps a native handle.
    pub fn from_interface(handle: u64) -> (r: Interface)
        ensures
            r.handle == handle,
    {
        Interface { handle }
    }
}

} // verus!

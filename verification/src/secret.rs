//! The secret wrapper: one native secret handle.

use vstd::prelude::*;

verus! {

/// The secret wrapper
pub struct Secret {
    pub handle: u64,
}

impl Secret {
    /// The native handle this wrapper holds.
    pub fn get(&self) -> (r: u64)
        ensures
            r == self.handle,
    {
        self.handle
    }

    /// Wraps a native handle.
    pub fn from_secret(handle: u64) -> (r: Secret)
        ensures
            r.handle == handle,
    {
        Secret { handle }
    }
}

} // verus!

//! The domain snapshot wrapper: one native snapshot handle.

use vstd::prelude::*;

verus! {

/// A snapshot of a machine.
pub struct Snapshot {
    pub handle: u64,
}

/// What the driver reports of a snapshot.
pub struct SnapshotInfo {
    pub name: String,
    pub description: Option<String>,
    pub creation_time: i64,
    pub is_current: bool,
    pub has_metadata: bool,
}

impl Snapshot {
    /// Wraps a snapshot handle.
    pub fn from_domain_snapshot(snapshot: u64) -> (r: Snapshot)
        ensures
            r.handle == snapshot,
    {
        Snapshot { handle: snapshot }
    }

    /// Hands the driver's answer for `get_name` through untouched.
    pub fn get_name(&self, outcome: Option<String>) -> (r: Option<String>)
        ensures
            r == outcome,
    {
        outcome
    }

    /// Hands the driver's answer for `get_xml_desc` through untouched.
    pub fn get_xml_desc(&self, flags: u32, outcome: Option<String>) -> (r: Option<String>)
        ensures
            r == outcome,
    {
        outcome
    }

    /// Collapses the driver's answer for `delete` to a plain success flag.
    pub fn delete(&self, flags: u32, outcome: Option<u32>) -> (r: bool)
        ensures
            r <==> outcome is Some,
    {
        match outcome {
            Some(_) => true,
            None => false,
        }
    }

    /// Hands the driver's answer for `is_current` through untouched.
    pub fn is_current(&self, flags: u32, outcome: Option<bool>) -> (r: Option<bool>)
        ensures
            r == outcome,
    {
        outcome
    }

    /// Hands the driver's answer for `has_metadata` through untouched.
    pub fn has_metadata(&self, flags: u32, outcome: Option<bool>) -> (r: Option<bool>)
        ensures
            r == outcome,
    {
        outcome
    }

    /// Wraps what `get_parent` found: everything or nothing.
    pub fn get_parent(&self, flags: u32, found: Option<u64>) -> (r: Option<Snapshot>)
        ensures
            r is Some <==> found is Some,
            r matches Some(s) ==> Some(s.handle) == found,
    {
        match found {
            Some(h) => Some(Snapshot { handle: h }),
            None => None,
        }
    }

    /// Collapses the driver's answer for `free` to a plain success flag;
    /// the wrapper itself keeps its fields.
    pub fn free(&mut self, outcome: Option<u32>) -> (r: bool)
        ensures
            final(self).handle == old(self).handle,
            r <==> outcome is Some,
    {
        match outcome {
            Some(_) => true,
            None => false,
        }
    }
}

} // verus!

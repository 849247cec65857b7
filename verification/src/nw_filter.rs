//! The network filter wrapper: one native filter handle.

use vstd::prelude::*;
use crate::connection::Connection;

verus! {

/// A network filter known to the hypervisor.
pub struct NWFilter {
    pub handle: u64,
}

impl NWFilter {
    /// The native handle this wrapper holds.
    pub fn get(&self) -> (r: u64)
        ensures
            r == self.handle,
    {
        self.handle
    }

    /// Wraps a filter handle.
    pub fn from_nw_filter(nw_filter: u64) -> (r: NWFilter)
        ensures
            r.handle == nw_filter,
    {
        NWFilter { handle: nw_filter }
    }

    /// Wraps what `lookup_by_name` found: the whole wrapper when the driver
    /// found the resource, nothing at all otherwise.
    pub fn lookup_by_name(conn: &Connection, name: String, found: Option<u64>) -> (r: Option<NWFilter>)
        ensures
            r is Some <==> (conn.is_open() && found is Some),
            r matches Some(w) ==> Some(w.handle) == found,
    {
        if conn.token().is_none() {
            return None;
        }
        match found {
            Some(h) => Some(NWFilter { handle: h }),
            None => None,
        }
    }

    /// Wraps what `lookup_by_uuid_string` found: the whole wrapper when the driver
    /// found the resource, nothing at all otherwise.
    pub fn lookup_by_uuid_string(conn: &Connection, uuid: String, found: Option<u64>) -> (r: Option<NWFilter>)
        ensures
            r is Some <==> (conn.is_open() && found is Some),
            r matches Some(w) ==> Some(w.handle) == found,
    {
        if conn.token().is_none() {
            return None;
        }
        match found {
            Some(h) => Some(NWFilter { handle: h }),
            None => None,
        }
    }

    /// Hands the driver's answer for `get_name` through untouched.
    pub fn get_name(&self, outcome: Option<String>) -> (r: Option<String>)
        ensures
            r == outcome,
    {
        outcome
    }

    /// Hands the driver's answer for `get_uuid_string` through untouched.
    pub fn get_uuid_string(&self, outcome: Option<String>) -> (r: Option<String>)
        ensures
            r == outcome,
    {
        outcome
    }

    /// Hands the driver's answer for `get_xml_desc` through untouched.
    pub fn get_xml_desc(&self, flags: u32, outcome: Option<String>) -> (r: Option<String>)
        ensures
            r == outcome,
    {
        outcome
    }

    /// Wraps what `define_xml` defined: the whole wrapper when the driver
    /// made the resource, nothing at all otherwise.
    pub fn define_xml(conn: &Connection, xml: String, defined: Option<u64>) -> (r: Option<NWFilter>)
        ensures
            r is Some <==> (conn.is_open() && defined is Some),
            r matches Some(w) ==> Some(w.handle) == defined,
    {
        if conn.token().is_none() {
            return None;
        }
        match defined {
            Some(h) => Some(NWFilter { handle: h }),
            None => None,
        }
    }

    /// Collapses the driver's answer for `undefine` to the success marker:
    /// zero when the driver succeeded, nothing when it failed.
    pub fn undefine(&self, outcome: Option<u32>) -> (r: Option<u32>)
        ensures
            r is Some <==> outcome is Some,
            r matches Some(v) ==> v == 0,
    {
        match outcome {
            Some(_) => Some(0),
            None => None,
        }
    }
}

} // verus!

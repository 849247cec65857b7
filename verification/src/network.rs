//! The virtual network wrapper: one native network handle.

use vstd::prelude::*;
use crate::connection::Connection;

verus! {

/// A virtual network known to the hypervisor.
pub struct Network {
    pub handle: u64,
}

impl Network {
    /// The native handle this wrapper holds.
    pub fn get(&self) -> (r: u64)
        ensures
            r == self.handle,
    {
        self.handle
    }

    /// Wraps a network handle.
    pub fn from_network(network: u64) -> (r: Network)
        ensures
            r.handle == network,
    {
        Network { handle: network }
    }

    /// Wraps what `lookup_by_name` found: the whole wrapper when the driver
    /// found the resource, nothing at all otherwise.
    pub fn lookup_by_name(conn: &Connection, name: String, found: Option<u64>) -> (r: Option<Network>)
        ensures
            r is Some <==> (conn.is_open() && found is Some),
            r matches Some(w) ==> Some(w.handle) == found,
    {
        if conn.token().is_none() {
            return None;
        }
        match found {
            Some(h) => Some(Network { handle: h }),
            None => None,
        }
    }

    /// Wraps what `lookup_by_uuid_string` found: the whole wrapper when the driver
    /// found the resource, nothing at all otherwise.
    pub fn lookup_by_uuid_string(conn: &Connection, uuid: String, found: Option<u64>) -> (r: Option<Network>)
        ensures
            r is Some <==> (conn.is_open() && found is Some),
            r matches Some(w) ==> Some(w.handle) == found,
    {
        if conn.token().is_none() {
            return None;
        }
        match found {
            Some(h) => Some(Network { handle: h }),
            None => None,
        }
    }

    /// Hands the driver's answer for `get_name` through untouched.
    pub fn get_name(&self, outcome: Option<String>) -> (r: Option<String>)
        ensures
            r == outcome,
    {
        outcome
    }

    /// Hands the driver's answer for `get_uuid_string` through untouched.
    pub fn get_uuid_string(&self, outcome: Option<String>) -> (r: Option<String>)
        ensures
            r == outcome,
    {
        outcome
    }

    /// Hands the driver's answer for `get_bridge_name` through untouched.
    pub fn get_bridge_name(&self, outcome: Option<String>) -> (r: Option<String>)
        ensures
            r == outcome,
    {
        outcome
    }

    /// Hands the driver's answer for `get_xml_desc` through untouched.
    pub fn get_xml_desc(&self, flags: u32, outcome: Option<String>) -> (r: Option<String>)
        ensures
            r == outcome,
    {
        outcome
    }

    /// Collapses the driver's answer for `create` to the success marker:
    /// zero when the driver succeeded, nothing when it failed.
    pub fn create(&self, outcome: Option<u32>) -> (r: Option<u32>)
        ensures
            r is Some <==> outcome is Some,
            r matches Some(v) ==> v == 0,
    {
        match outcome {
            Some(_) => Some(0),
            None => None,
        }
    }

    /// Wraps what `define_xml` defined: the whole wrapper when the driver
    /// made the resource, nothing at all otherwise.
    pub fn define_xml(conn: &Connection, xml: String, defined: Option<u64>) -> (r: Option<Network>)
        ensures
            r is Some <==> (conn.is_open() && defined is Some),
            r matches Some(w) ==> Some(w.handle) == defined,
    {
        if conn.token().is_none() {
            return None;
        }
        match defined {
            Some(h) => Some(Network { handle: h }),
            None => None,
        }
    }

    /// Wraps what `create_xml` created: the whole wrapper when the driver
    /// made the resource, nothing at all otherwise.
    pub fn create_xml(conn: &Connection, xml: String, created: Option<u64>) -> (r: Option<Network>)
        ensures
            r is Some <==> (conn.is_open() && created is Some),
            r matches Some(w) ==> Some(w.handle) == created,
    {
        if conn.token().is_none() {
            return None;
        }
        match created {
            Some(h) => Some(Network { handle: h }),
            None => None,
        }
    }

    /// Collapses the driver's answer for `destroy` to the success marker:
    /// zero when the driver succeeded, nothing when it failed.
    pub fn destroy(&self, outcome: Option<u32>) -> (r: Option<u32>)
        ensures
            r is Some <==> outcome is Some,
            r matches Some(v) ==> v == 0,
    {
        match outcome {
            Some(_) => Some(0),
            None => None,
        }
    }

    /// Collapses the driver's answer for `undefine` to the success marker:
    /// zero when the driver succeeded, nothing when it failed.
    pub fn undefine(&self, outcome: Option<u32>) -> (r: Option<u32>)
        ensures
            r is Some <==> outcome is Some,
            r matches Some(v) ==> v == 0,
    {
        match outcome {
            Some(_) => Some(0),
            None => None,
        }
    }

    /// Collapses the driver's answer for `free` to the success marker:
    /// zero when the driver succeeded, nothing when it failed.
    pub fn free(&mut self, outcome: Option<u32>) -> (r: Option<u32>)
        ensures
            final(self).handle == old(self).handle,
            r is Some <==> outcome is Some,
            r matches Some(v) ==> v == 0,
    {
        match outcome {
            Some(_) => Some(0),
            None => None,
        }
    }

    /// Hands the driver's answer for `is_active` through untouched.
    pub fn is_active(&self, outcome: Option<bool>) -> (r: Option<bool>)
        ensures
            r == outcome,
    {
        outcome
    }

    /// Hands the driver's answer for `is_persistent` through untouched.
    pub fn is_persistent(&self, outcome: Option<bool>) -> (r: Option<bool>)
        ensures
            r == outcome,
    {
        outcome
    }

    /// Hands the driver's answer for `get_autostart` through untouched.
    pub fn get_autostart(&self, outcome: Option<bool>) -> (r: Option<bool>)
        ensures
            r == outcome,
    {
        outcome
    }

    /// Hands the driver's answer for `set_autostart` through untouched.
    pub fn set_autostart(&self, autostart: bool, outcome: Option<u32>) -> (r: Option<u32>)
        ensures
            r == outcome,
    {
        outcome
    }

    /// Collapses the driver's answer for `update` to the success marker:
    /// zero when the driver succeeded, nothing when it failed.
    pub fn update(&self, cmd: u32, section: u32, index: i32, xml: String, flags: u32, outcome: Option<u32>) -> (r: Option<u32>)
        ensures
            r is Some <==> outcome is Some,
            r matches Some(v) ==> v == 0,
    {
        match outcome {
            Some(_) => Some(0),
            None => None,
        }
    }
}

} // verus!

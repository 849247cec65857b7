//! The storage pool wrapper: one native pool handle.

use vstd::prelude::*;
use crate::connection::Connection;
use crate::json::{ascii_bytes, jint, push_dec_i64, push_dec_u64, push_literal};

verus! {

/// A storage pool known to the hypervisor.
pub struct StoragePool {
    pub handle: u64,
}

/// The pool account as it is reported onward: a JSON object with the
/// driver's numbers under sorted keys.
pub open spec fn spec_pool_info(state: int, capacity: int, allocation: int, available: int)
    -> Seq<u8> {
    ascii_bytes("{\"allocation\":"@) + jint(allocation) + ascii_bytes(",\"available\":"@)
        + jint(available) + ascii_bytes(",\"capacity\":"@) + jint(capacity) + ascii_bytes(
        ",\"state\":"@,
    ) + jint(state) + ascii_bytes("}"@)
}

impl StoragePool {
    /// The native handle this wrapper holds.
    pub fn get(&self) -> (r: u64)
        ensures
            r == self.handle,
    {
        self.handle
    }

    /// Wraps a pool handle.
    pub fn from_storage_pool(storage_pool: u64) -> (r: StoragePool)
        ensures
            r.handle == storage_pool,
    {
        StoragePool { handle: storage_pool }
    }

    /// Wraps what `define_xml` defined: everything or nothing.
    pub fn define_xml(conn: &Connection, xml: String, defined: Option<u64>) -> (r: Option<
        StoragePool,
    >)
        ensures
            r is Some <==> (conn.is_open() && defined is Some),
            r matches Some(w) ==> Some(w.handle) == defined,
    {
        if conn.token().is_none() {
            return None;
        }
        match defined {
            Some(h) => Some(StoragePool { handle: h }),
            None => None,
        }
    }

    /// Wraps what `create_xml` created: everything or nothing.
    pub fn create_xml(conn: &Connection, xml: String, flags: u32, created: Option<u64>) -> (r:
        Option<StoragePool>)
        ensures
            r is Some <==> (conn.is_open() && created is Some),
            r matches Some(w) ==> Some(w.handle) == created,
    {
        if conn.token().is_none() {
            return None;
        }
        match created {
            Some(h) => Some(StoragePool { handle: h }),
            None => None,
        }
    }

    /// Wraps what `lookup_by_name` found: everything or nothing.
    pub fn lookup_by_name(conn: &Connection, name: String, found: Option<u64>) -> (r: Option<
        StoragePool,
    >)
        ensures
            r is Some <==> (conn.is_open() && found is Some),
            r matches Some(w) ==> Some(w.handle) == found,
    {
        if conn.token().is_none() {
            return None;
        }
        match found {
            Some(h) => Some(StoragePool { handle: h }),
            None => None,
        }
    }

    /// Wraps what `lookup_by_uuid_string` found: everything or nothing.
    pub fn lookup_by_uuid_string(conn: &Connection, uuid: String, found: Option<u64>) -> (r:
        Option<StoragePool>)
        ensures
            r is Some <==> (conn.is_open() && found is Some),
            r matches Some(w) ==> Some(w.handle) == found,
    {
        if conn.token().is_none() {
            return None;
        }
        match found {
            Some(h) => Some(StoragePool { handle: h }),
            None => None,
        }
    }

    /// Hands the driver's answer for `get_name` through untouched.
    pub fn get_name(&self, outcome: Option<String>) -> (r: Option<String>)
        ensures
            r == outcome,
    {
        outcome
    }

    /// Hands the driver's answer for `num_of_volumes` through untouched.
    pub fn num_of_volumes(&self, outcome: Option<u32>) -> (r: Option<u32>)
        ensures
            r == outcome,
    {
        outcome
    }

    /// Hands the driver's volume names through: same names, same order.
    pub fn list_volumes(&self, outcome: Option<Vec<String>>) -> (r: Option<Vec<String>>)
        ensures
            r == outcome,
    {
        outcome
    }

    /// Hands the driver's answer for `get_uuid_string` through untouched.
    pub fn get_uuid_string(&self, outcome: Option<String>) -> (r: Option<String>)
        ensures
            r == outcome,
    {
        outcome
    }

    /// Hands the driver's answer for `get_xml_desc` through untouched.
    pub fn get_xml_desc(&self, outcome: Option<String>) -> (r: Option<String>)
        ensures
            r == outcome,
    {
        outcome
    }

    /// Hands the driver's answer for `create` through untouched.
    pub fn create(&self, flags: u32, outcome: Option<u32>) -> (r: Option<u32>)
        ensures
            r == outcome,
    {
        outcome
    }

    /// Hands the driver's answer for `build` through untouched.
    pub fn build(&self, flags: u32, outcome: Option<u32>) -> (r: Option<u32>)
        ensures
            r == outcome,
    {
        outcome
    }

    /// Collapses the driver's answer for `destroy` to the success marker:
    /// zero when the driver succeeded, nothing when it failed.
    pub fn destroy(&self, outcome: Option<u32>) -> (r: Option<u32>)
        ensures
            r is Some <==> outcome is Some,
            r matches Some(v) ==> v == 0,
    {
        match outcome {
            Some(_) => Some(0),
            None => None,
        }
    }

    /// Collapses the driver's answer for `undefine` to the success marker:
    /// zero when the driver succeeded, nothing when it failed.
    pub fn undefine(&self, outcome: Option<u32>) -> (r: Option<u32>)
        ensures
            r is Some <==> outcome is Some,
            r matches Some(v) ==> v == 0,
    {
        match outcome {
            Some(_) => Some(0),
            None => None,
        }
    }

    /// Collapses the driver's answer for `free` to the success marker:
    /// zero when the driver succeeded, nothing when it failed.
    pub fn free(&mut self, outcome: Option<u32>) -> (r: Option<u32>)
        ensures
            final(self).handle == old(self).handle,
            r is Some <==> outcome is Some,
            r matches Some(v) ==> v == 0,
    {
        match outcome {
            Some(_) => Some(0),
            None => None,
        }
    }

    /// Hands the driver's answer for `is_active` through untouched.
    pub fn is_active(&self, outcome: Option<bool>) -> (r: Option<bool>)
        ensures
            r == outcome,
    {
        outcome
    }

    /// Hands the driver's answer for `is_persistent` through untouched.
    pub fn is_persistent(&self, outcome: Option<bool>) -> (r: Option<bool>)
        ensures
            r == outcome,
    {
        outcome
    }

    /// Collapses the driver's answer for `refresh` to the success marker:
    /// zero when the driver succeeded, nothing when it failed.
    pub fn refresh(&self, flags: u32, outcome: Option<u32>) -> (r: Option<u32>)
        ensures
            r is Some <==> outcome is Some,
            r matches Some(v) ==> v == 0,
    {
        match outcome {
            Some(_) => Some(0),
            None => None,
        }
    }

    /// Hands the driver's answer for `get_autostart` through untouched.
    pub fn get_autostart(&self, outcome: Option<bool>) -> (r: Option<bool>)
        ensures
            r == outcome,
    {
        outcome
    }

    /// Collapses the driver's answer for `set_autostart` to the success marker:
    /// zero when the driver succeeded, nothing when it failed.
    pub fn set_autostart(&self, autostart: bool, outcome: Option<u32>) -> (r: Option<u32>)
        ensures
            r is Some <==> outcome is Some,
            r matches Some(v) ==> v == 0,
    {
        match outcome {
            Some(_) => Some(0),
            None => None,
        }
    }

    /// Reports the pool account the driver gave, as the exact JSON bytes:
    /// the numbers pass through unchanged under sorted keys.
    pub fn get_info(&self, fetched: Option<(u32, u64, u64, u64)>) -> (r: Option<Vec<u8>>)
        ensures
            r is Some <==> fetched is Some,
            r matches Some(v) ==> fetched matches Some(f) && v@ == spec_pool_info(
                f.0 as int,
                f.1 as int,
                f.2 as int,
                f.3 as int,
            ),
    {
        match fetched {
            Some((state, capacity, allocation, available)) => {
                let mut out: Vec<u8> = Vec::new();
                proof {
                    reveal_strlit("{\"allocation\":");
                    reveal_strlit(",\"available\":");
                    reveal_strlit(",\"capacity\":");
                    reveal_strlit(",\"state\":");
                    reveal_strlit("}");
                }
                push_literal(&mut out, "{\"allocation\":");
                push_dec_u64(&mut out, allocation);
                push_literal(&mut out, ",\"available\":");
                push_dec_u64(&mut out, available);
                push_literal(&mut out, ",\"capacity\":");
                push_dec_u64(&mut out, capacity);
                push_literal(&mut out, ",\"state\":");
                push_dec_u64(&mut out, state as u64);
                push_literal(&mut out, "}");
                proof {
                    assert(out@ =~= spec_pool_info(
                        state as int,
                        capacity as int,
                        allocation as int,
                        available as int,
                    ));
                }
                Some(out)
            },
            None => None,
        }
    }
}

} // verus!

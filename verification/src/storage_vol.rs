//! The storage volume wrapper: one native volume handle.

use vstd::prelude::*;
use crate::connection::Connection;
use crate::big::Big;
use crate::json::{ascii_bytes, dec_digits, jint, push_dec_u64, push_literal};
use crate::machine::{lossless, narrowed, U64Call};
use crate::storage_pool::StoragePool;

verus! {

/// A storage volume known to the hypervisor.
pub struct StorageVol {
    pub handle: u64,
}

/// The volume account as it is reported onward: a JSON object under
/// sorted keys whose sizes are carried as decimal strings.
pub open spec fn spec_vol_info(kind: int, capacity: nat, allocation: nat) -> Seq<u8> {
    ascii_bytes("{\"allocation\":\""@) + dec_digits(allocation) + ascii_bytes(
        "\",\"capacity\":\""@,
    ) + dec_digits(capacity) + ascii_bytes("\",\"type\":"@) + jint(kind) + ascii_bytes("}"@)
}

impl StorageVol {
    /// The native handle this wrapper holds.
    pub fn get(&self) -> (r: u64)
        ensures
            r == self.handle,
    {
        self.handle
    }

    /// Wraps a volume handle.
    pub fn from_vol(vol: u64) -> (r: StorageVol)
        ensures
            r.handle == vol,
    {
        StorageVol { handle: vol }
    }

    /// Wraps what `create_xml` created in a pool: everything or nothing.
    pub fn create_xml(pool: &StoragePool, xml: String, flags: u32, created: Option<u64>) -> (r:
        Option<StorageVol>)
        ensures
            r is Some <==> created is Some,
            r matches Some(w) ==> Some(w.handle) == created,
    {
        match created {
            Some(h) => Some(StorageVol { handle: h }),
            None => None,
        }
    }

    /// Wraps what `create_xml_from` cloned off an existing volume.
    pub fn create_xml_from(
        pool: &StoragePool,
        xml: String,
        vol: &StorageVol,
        flags: u32,
        created: Option<u64>,
    ) -> (r: Option<StorageVol>)
        ensures
            r is Some <==> created is Some,
            r matches Some(w) ==> Some(w.handle) == created,
    {
        match created {
            Some(h) => Some(StorageVol { handle: h }),
            None => None,
        }
    }

    /// Wraps what `lookup_by_name` found in a pool: everything or nothing.
    pub fn lookup_by_name(pool: &StoragePool, name: String, found: Option<u64>) -> (r: Option<
        StorageVol,
    >)
        ensures
            r is Some <==> found is Some,
            r matches Some(w) ==> Some(w.handle) == found,
    {
        match found {
            Some(h) => Some(StorageVol { handle: h }),
            None => None,
        }
    }

    /// Wraps what `lookup_by_key` found: everything or nothing.
    pub fn lookup_by_key(conn: &Connection, key: String, found: Option<u64>) -> (r: Option<
        StorageVol,
    >)
        ensures
            r is Some <==> (conn.is_open() && found is Some),
            r matches Some(w) ==> Some(w.handle) == found,
    {
        if conn.token().is_none() {
            return None;
        }
        match found {
            Some(h) => Some(StorageVol { handle: h }),
            None => None,
        }
    }

    /// Wraps what `lookup_by_path` found: everything or nothing.
    pub fn lookup_by_path(conn: &Connection, path: String, found: Option<u64>) -> (r: Option<
        StorageVol,
    >)
        ensures
            r is Some <==> (conn.is_open() && found is Some),
            r matches Some(w) ==> Some(w.handle) == found,
    {
        if conn.token().is_none() {
            return None;
        }
        match found {
            Some(h) => Some(StorageVol { handle: h }),
            None => None,
        }
    }

    /// The call growing the volume; refused before the driver sees it
    /// when the value overflows the native width.
    pub fn resize(&self, capacity: &Big, flags: u32) -> (r: Option<U64Call>)
        ensures
            r is Some <==> lossless(*capacity),
            r matches Some(c) ==> c.value as int == narrowed(*capacity) && c.domain
                == self.handle && c.flags == flags,
    {
        let (_signed, v, ok) = capacity.get_u64();
        if !ok {
            return None;
        }
        Some(U64Call { domain: self.handle, value: v, flags })
    }

    /// Reports the volume account the driver gave, as the exact JSON
    /// bytes: the sizes pass through unchanged as decimal strings.
    pub fn get_info(&self, fetched: Option<(u32, u64, u64)>) -> (r: Option<Vec<u8>>)
        ensures
            r is Some <==> fetched is Some,
            r matches Some(v) ==> fetched matches Some(f) && v@ == spec_vol_info(
                f.0 as int,
                f.1 as nat,
                f.2 as nat,
            ),
    {
        match fetched {
            Some((kind, capacity, allocation)) => {
                let mut out: Vec<u8> = Vec::new();
                proof {
                    reveal_strlit("{\"allocation\":\"");
                    reveal_strlit("\",\"capacity\":\"");
                    reveal_strlit("\",\"type\":");
                    reveal_strlit("}");
                }
                push_literal(&mut out, "{\"allocation\":\"");
                push_dec_u64(&mut out, allocation);
                push_literal(&mut out, "\",\"capacity\":\"");
                push_dec_u64(&mut out, capacity);
                push_literal(&mut out, "\",\"type\":");
                push_dec_u64(&mut out, kind as u64);
                push_literal(&mut out, "}");
                proof {
                    assert(out@ =~= spec_vol_info(kind as int, capacity as nat, allocation as nat));
                }
                Some(out)
            },
            None => None,
        }
    }

    /// Collapses the driver's answer for `delete` to the success marker:
    /// zero when the driver succeeded, nothing when it failed.
    pub fn delete(&self, flags: u32, outcome: Option<u32>) -> (r: Option<u32>)
        ensures
            r is Some <==> outcome is Some,
            r matches Some(v) ==> v == 0,
    {
        match outcome {
            Some(_) => Some(0),
            None => None,
        }
    }

    /// Hands the driver's answer for `get_name` through untouched.
    pub fn get_name(&self, outcome: Option<String>) -> (r: Option<String>)
        ensures
            r == outcome,
    {
        outcome
    }

    /// Hands the driver's answer for `get_path` through untouched.
    pub fn get_path(&self, outcome: Option<String>) -> (r: Option<String>)
        ensures
            r == outcome,
    {
        outcome
    }

    /// Hands the driver's answer for `get_xml_desc` through untouched.
    pub fn get_xml_desc(&self, flags: u32, outcome: Option<String>) -> (r: Option<String>)
        ensures
            r == outcome,
    {
        outcome
    }

    /// Collapses the driver's answer for `wipe` to the success marker:
    /// zero when the driver succeeded, nothing when it failed.
    pub fn wipe(&self, flags: u32, outcome: Option<u32>) -> (r: Option<u32>)
        ensures
            r is Some <==> outcome is Some,
            r matches Some(v) ==> v == 0,
    {
        match outcome {
            Some(_) => Some(0),
            None => None,
        }
    }

    /// Collapses the driver's answer for `wipe_pattern` to the success marker:
    /// zero when the driver succeeded, nothing when it failed.
    pub fn wipe_pattern(&self, algorithm: u32, flags: u32, outcome: Option<u32>) -> (r: Option<u32>)
        ensures
            r is Some <==> outcome is Some,
            r matches Some(v) ==> v == 0,
    {
        match outcome {
            Some(_) => Some(0),
            None => None,
        }
    }

    /// Collapses the driver's answer for `free` to the success marker:
    /// zero when the driver succeeded, nothing when it failed.
    pub fn free(&mut self, outcome: Option<u32>) -> (r: Option<u32>)
        ensures
            final(self).handle == old(self).handle,
            r is Some <==> outcome is Some,
            r matches Some(v) ==> v == 0,
    {
        match outcome {
            Some(_) => Some(0),
            None => None,
        }
    }
}

} // verus!

//! A binding core for hypervisor management through the native
//! virtualization library: connection and resource handles as plain
//! tokens, the guest-agent JSON command layer with its base64 codec, the
//! narrowing guards for 64-bit parameters, and the error surface.
//!
//! The native library performs every call; the embedder hands each
//! call's outcome to the functions here, which decide, convert and
//! report — and are verified to do exactly that.

pub mod base64;
pub mod big;
pub mod connection;
pub mod domain_stats_record;
pub mod error;
pub mod flags;
pub mod interface;
pub mod json;
pub mod machine;
pub mod network;
pub mod node_device;
pub mod node_info;
pub mod nw_filter;
pub mod qga;
pub mod secret;
pub mod session;
pub mod sjson;
pub mod snapshot;
pub mod storage_pool;
pub mod storage_vol;
pub mod text;

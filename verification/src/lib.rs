//! Peer-to-peer replication engine for a shared clipboard history.
//!
//! Each node keeps an in-memory index of record fingerprints (content hash
//! plus creation time) with last-write-wins conflict resolution, a registry
//! of peer addresses, and the request/response logic of the synchronisation
//! service.  All state transitions are verified; the transport, storage and
//! desktop layers live outside this crate and drive it with plain values.

pub mod config;
pub mod consts;
pub mod handler;
pub mod listener;
pub mod model;
pub mod models;
pub mod storage;
pub mod sync;
pub mod sync_proto;
pub mod utils;

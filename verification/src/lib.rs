//! A process-wide, identity-scoped string preference store.
//!
//! The store keeps a flat string-to-string map in memory for one application
//! identity and persists the whole map to a durable preferences backend under
//! a fixed slot. Reads are in-memory only; every write persists the full map
//! and reports whether the write reached durable storage.

mod backend;
pub mod cache;
pub mod laws;
pub mod shared;
pub mod store;

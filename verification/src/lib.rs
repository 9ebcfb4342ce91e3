//! A sharded key-value caching layer: consistent-hash routing over a set of
//! cache nodes, an in-process fallback store for when the remote tier is
//! unavailable, and a bounded-retry dispatcher that puts a time envelope
//! around every operation.
//!
//! The library holds the routing and dispatch engine itself; connecting to
//! the remote nodes, the HTTP surface and file logging live outside it and
//! talk to it through plain values.

pub mod api;
pub mod dispatch;
pub mod fallback;
pub mod glob;
pub mod lock_manager;
pub mod logger;
pub mod outcome;
pub mod registry;
pub mod ring;
pub mod service;
pub mod text;

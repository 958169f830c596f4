//! Synchronisation of locally cached guides with a remote catalogue, and the
//! store of per-item progress that survives it.
//!
//! Everything here works on plain values: callers read and write files and
//! talk to the network, and hand the results in.
pub mod config;
pub mod content;
pub mod error;
pub mod ident;
pub mod inflight;
pub mod persist;
pub mod remote;
pub mod store;
pub mod sync;

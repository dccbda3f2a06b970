//! Path failover for NVMe-oF volumes on one host.
//!
//! When the active path to a storage target breaks, a replacement path is
//! connected, watched until it serves I/O, and the stale paths are retired.
//! The decisions of that protocol are written here as functions from a state
//! and an event to the next state and the next thing to do; whoever drives
//! them talks to the initiator service and to the kernel and reports back.

pub mod error;
mod text;
pub mod uri;
pub mod service;
pub mod connect;
pub mod disconnect;
pub mod replace;
pub mod query;
pub mod runs;
pub mod models;
pub mod snapshot;

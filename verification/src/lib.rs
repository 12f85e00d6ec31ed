//! Normalisation and health evaluation for a drive monitor.
//!
//! The crate turns the loosely typed records that block-device listings,
//! SMART reports and a remote alert feed deliver into one consistent data
//! model, derives a `caution` verdict from SMART counters, and filters
//! alerts by severity. Every function carries a contract that Verus proves.

pub mod api;
pub mod config;
pub mod data;
pub mod severity;
pub mod smart;
pub mod text;
pub mod truenas;

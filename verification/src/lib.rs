//! Telemetry and diagnostics for a single host: the rules that turn raw
//! operating-system readings into the answers an HTTP agent gives.
//!
//! Every function here works on plain values. Reading the system, spawning
//! commands and serving requests are the caller's business.

pub mod units;
pub mod command;
pub mod power;
pub mod disks;
pub mod text;
pub mod config;
pub mod sysinfo;

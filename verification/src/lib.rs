//! Per-peer clock-synchronization estimator.
//!
//! Converts round-trip time measurements exchanged with one remote time
//! source into an estimate of local-clock offset and frequency drift,
//! adaptively tunes the poll interval, and rejects one-shot outliers.
//! All quantities are kept in NTP fixed-point form (`2^-32` second ticks),
//! so the control logic, the statistics window and the lifecycle state
//! machine are verified end to end; the floating-point Kalman matrix
//! arithmetic that consumes the values produced here lives outside the
//! verified core.

pub mod bootstrap;
pub mod config;
pub mod filter;
pub mod measurement;
pub mod peer;
pub mod poll;
pub mod stats;
pub mod time;

//! Telemetry sampling and distribution engine for a live streaming setup.
//!
//! The library derives per-output and aggregate health metrics from raw
//! counters, computes network rates from cumulative counters sampled at
//! irregular intervals, supervises a reconnecting control connection, and
//! publishes immutable snapshots to independent readers.

pub mod access;
pub mod aegis;
pub mod aggregate;
pub mod distributor;
pub mod health;
pub mod kvlist;
pub mod model;
pub mod names;
pub mod netsample;
pub mod rate;
pub mod sampler;
pub mod supervisor;
pub mod text;
pub mod theme;

pub use rate::RateTracker;

//! Supervision logic for a locally- or remotely-run blockchain full node.
//!
//! The crate classifies node readiness and health, detects when the node has
//! silently followed an orphaned fork, drives a "wait until synced" progress
//! readout, and decides the recovery actions taken when the node is unhealthy.
//! All remote calls, timers and filesystem work live with the caller; this
//! library holds the decisions, each stated in its contract.

pub mod health;
pub mod idle;
pub mod mining_status;
pub mod orphan;
pub mod peers;
pub mod readiness;
pub mod service;
pub mod status;
pub mod sync;
pub mod text;

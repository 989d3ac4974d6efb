//! A hysteresis-based monitor/cleanup controller.
//!
//! The library decides when a bounded, fluctuating resource metric (such as
//! cached memory, in megabytes) warrants a cleanup cycle: it starts a cycle
//! when the metric reaches a start threshold, aims to bring it down to a
//! lower stop threshold, and then waits out a cooldown window before it may
//! start again.  Sampling the metric and performing the actual reclamation
//! are left to external collaborators; this crate holds the decision logic,
//! the configuration guard that keeps the two thresholds ordered, and the
//! classification of cleanup outcomes.

pub mod config;
pub mod controller;
pub mod memory;
pub mod outcome;

//! Core logic of a process launcher that applies CPU-affinity and
//! scheduling-priority constraints to a spawned executable.
//!
//! The launcher keeps named profiles (executable path, CPU set, priority),
//! computes a platform affinity mask, drives constraint application through a
//! bounded retry engine with exponential backoff, and, where a high scheduling
//! class is gated behind elevated privilege, negotiates a privileged
//! re-invocation while a transient handoff record carries the launch intent
//! across the process boundary.

pub mod apply;
pub mod elevation;
pub mod mask;
pub mod numfmt;
pub mod orchestrator;
pub mod priority;
pub mod profile;
pub mod retry;
pub mod store;
pub mod strategy;

//! Supervision of an external helper process: resolving which interpreter
//! to try, candidate-fallback launching with privilege-escalation fallback,
//! a singleton monitor lifecycle with orphan reconciliation, and the path
//! logic that locates scripts and log files.
//!
//! Every decision is made over plain values by verified state machines; the
//! surrounding application performs the spawns, kills and filesystem work
//! those machines request and hands the observed outcomes back.

pub mod fs_model;
pub mod host;
pub mod launcher;
pub mod monitor;
pub mod paths;
pub mod resolver;
pub mod runner;
pub mod supervisor;
pub mod text;

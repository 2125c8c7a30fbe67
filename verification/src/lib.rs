//! Core of an addon that supervises one externally launched executable on
//! behalf of its user: a persisted launch configuration, a process supervisor
//! owning at most one child-process handle, and a process-wide registry that
//! installs the single shared supervisor exactly once per session.
//!
//! Everything here is plain logic over plain values.  The operating-system
//! work that the logic decides about (reading and writing the configuration
//! file, spawning a process, terminating it) is performed by the embedding,
//! which feeds the outcomes back in as events.

pub mod config;
pub mod lifecycle;
pub mod registry;
pub mod supervisor;

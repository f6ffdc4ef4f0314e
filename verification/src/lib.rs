//! A small process supervisor for a desktop shell.
//!
//! The library ensures that exactly one instance of a companion
//! long-running process is active on the local machine: a liveness
//! probe on a well-known endpoint decides whether one already runs, a
//! launch strategy tries a primary and then a fallback command, a
//! registry owns the handle of the process this instance spawned, and
//! a shutdown coordinator hands that handle out exactly once so the
//! process can be terminated from any lifecycle trigger.
//!
//! The probe, the spawn and the kill are operating-system calls and are
//! performed by the embedding program; this library holds all the
//! decisions between them and the ownership of the spawned handle.

pub mod config;
pub mod coordinator;
pub mod handle;
pub mod laws;
pub mod registry;
pub mod supervisor;

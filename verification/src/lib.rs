//! Session-launch orchestration for a privileged containerized workstation.
//!
//! The library plans one container-engine invocation: it decides when an
//! image must be pulled, computes the user-namespace ID remapping, selects
//! the bind mounts from the detected host topology, filters the forwarded
//! environment variables, and assembles the final engine argument list.
//! Process startup, environment reads and the engine subprocess itself are
//! left to the surrounding binary, which hands their outcomes to the
//! functions here as plain values and performs the actions they decide.

pub mod engine;
pub mod envpass;
pub mod errors;
pub mod idmap;
pub mod image;
pub mod launcher;
pub mod mode;
pub mod mounts;
pub mod strutil;

//! Mode selection: one process is either the host-side orchestrator or the
//! in-container entrypoint, decided once at start from the invocation
//! identity and never changed within a run.

use vstd::prelude::*;
use crate::strutil::spec_ends_with;
use crate::strutil::str_ends_with;

verus! {

/// The two mutually exclusive ways a process runs.
#[derive(PartialEq, Eq, Structural, Clone, Copy, Debug)]
pub enum Mode {
    /// Build and run the engine invocation.
    Host,
    /// Perform in-container initialization; never re-invoke the engine.
    Entrypoint,
}

/// Selects the mode from the invocation identity: the re-exec marker (the
/// program was invoked under its staged `.entrypoint` name) or the explicit
/// subcommand selects Entrypoint Mode; anything else is Host Mode.
pub fn select_mode(argv0: &str, entrypoint_subcommand: bool) -> (m: Mode)
    ensures
        m is Entrypoint <==> (spec_ends_with(argv0@, ".entrypoint"@) || entrypoint_subcommand),
{
    if str_ends_with(argv0, ".entrypoint") {
        Mode::Entrypoint
    } else if entrypoint_subcommand {
        Mode::Entrypoint
    } else {
        Mode::Host
    }
}

} // verus!

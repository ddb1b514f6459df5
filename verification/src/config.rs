//! The validated configuration of one gather run.

use vstd::prelude::*;

verus! {

/// How much the surrounding binary should log. Chosen once at startup and
/// never changed during a run.
#[derive(Clone, Copy, Debug, PartialEq, Eq, Structural)]
pub enum Verbosity {
    Off,
    Info,
    Debug,
    Trace,
}

/// The verbosity a run uses, derived from the command-line flags: a quiet
/// flag silences everything; otherwise the number of debug flags raises the
/// level from informational through debug to trace.
pub open spec fn verbosity_of(quiet: bool, debug_count: u64) -> Verbosity {
    if quiet {
        Verbosity::Off
    } else if debug_count == 0 {
        Verbosity::Info
    } else if debug_count == 1 {
        Verbosity::Debug
    } else {
        Verbosity::Trace
    }
}

/// Maps the quiet flag and the repeatable debug flag to a verbosity level.
pub fn verbosity_from_flags(quiet: bool, debug_count: u64) -> (v: Verbosity)
    ensures
        v == verbosity_of(quiet, debug_count),
{
    if quiet {
        Verbosity::Off
    } else if debug_count == 0 {
        Verbosity::Info
    } else if debug_count == 1 {
        Verbosity::Debug
    } else {
        Verbosity::Trace
    }
}

/// The immutable configuration of one gather run, built once from validated
/// command-line input before processing begins.
#[derive(Clone, Debug)]
pub struct Config {
    /// The source paths to gather, in the order they are to be processed.
    pub sources: Vec<String>,
    /// The directory every gathered file is placed in.
    pub target_dir: String,
    /// Move each file instead of copying it.
    pub move_files: bool,
    /// Abort the whole run at the first per-item failure.
    pub stop_on_error: bool,
    /// Report each successfully handled file.
    pub show_detail: bool,
    /// Simulate the run without touching the filesystem.
    pub dry_run: bool,
    /// Report the aggregate counters once the run is over.
    pub show_summary: bool,
    /// How much the surrounding binary logs.
    pub verbosity: Verbosity,
}

} // verus!

//! A small library for gathering files into a single target directory.
//!
//! The library holds the decision logic of a gather run: planning the
//! destination of each source path, classifying the outcome of each
//! copy-or-move attempt, accumulating the run counters, and formatting the
//! report lines. The filesystem itself is driven by the surrounding binary,
//! which feeds each operation's outcome back into the [`gather::Gatherer`]
//! state machine.

pub mod config;
pub mod gather;
pub mod paths;
pub mod report;

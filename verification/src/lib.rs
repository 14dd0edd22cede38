//! Orchestrator for batch raw-to-DNG conversion.
//!
//! The library holds the user's current input/output selections, gates the
//! convert action on their completeness, translates conversion options into
//! the argument vector understood by the external `dnglab` converter, and
//! models a sequential per-file conversion run that classifies each file's
//! outcome independently.  All process spawning and dialog plumbing lives
//! outside the library; it hands the library plain values and takes plain
//! values back.

pub mod options;
pub mod args;
pub mod outcome;
pub mod selection;
pub mod runner;
pub mod locator;
pub mod present;

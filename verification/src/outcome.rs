//! Per-file conversion outcomes and their classification from what was
//! observed when the external process was launched.

use vstd::prelude::*;

verus! {

/// What the caller observed while launching the external converter once and
/// waiting for it to exit.  `Exited` carries the process's exit status
/// (`0` on success) and its captured standard-error text; `NotFound` means
/// the OS could not find the executable; `Failed` is any other OS-level
/// launch error, carried as its message.
#[derive(Debug, PartialEq, Eq)]
pub enum LaunchReport {
    Exited { status: i32, stderr: String },
    NotFound,
    Failed { message: String },
}

/// The outcome of converting one input file, produced once per file in input
/// order.
#[derive(Debug, PartialEq, Eq)]
pub enum ConversionOutcome {
    Succeeded,
    ToolReportedError { status: i32, stderr: String },
    ToolNotFound,
    LaunchFailed { message: String },
}

/// How a launch observation maps to an outcome: exit status zero is success,
/// any other exit status is an error reported by the tool, and a launch that
/// never produced a process is `ToolNotFound` or `LaunchFailed`.
pub open spec fn spec_classify(report: LaunchReport) -> ConversionOutcome {
    match report {
        LaunchReport::Exited { status, stderr } => {
            if status == 0 {
                ConversionOutcome::Succeeded
            } else {
                ConversionOutcome::ToolReportedError { status, stderr }
            }
        },
        LaunchReport::NotFound => ConversionOutcome::ToolNotFound,
        LaunchReport::Failed { message } => ConversionOutcome::LaunchFailed { message },
    }
}

/// Classify one launch observation.
pub fn classify(report: LaunchReport) -> (r: ConversionOutcome)
    ensures
        r == spec_classify(report),
{
    match report {
        LaunchReport::Exited { status, stderr } => {
            if status == 0 {
                ConversionOutcome::Succeeded
            } else {
                ConversionOutcome::ToolReportedError { status, stderr }
            }
        },
        LaunchReport::NotFound => ConversionOutcome::ToolNotFound,
        LaunchReport::Failed { message } => ConversionOutcome::LaunchFailed { message },
    }
}

impl ConversionOutcome {
    /// True iff the file converted successfully.
    pub fn is_success(&self) -> (r: bool)
        ensures
            r == (*self is Succeeded),
    {
        match self {
            ConversionOutcome::Succeeded => true,
            _ => false,
        }
    }
}

} // verus!

//! The external process runner's judgement: what one run of the stress
//! tool amounts to, given what the operating system reported of it.
//!
//! The runner itself spawns the tool and waits for it, which may take as
//! long as the tool's own timeout or longer. It never retries.

use vstd::prelude::*;
use vstd::string::*;
use crate::retry::outcome_view;
use crate::text::{signed_decimal, signed_decimal_string};

verus! {

/// What the operating system reported of one run of the tool.
#[derive(Clone, Debug, PartialEq, Eq)]
pub enum ProcessReport {
    /// The tool ran and exited with this status.
    Exited { code: i32 },
    /// The tool ran and ended without an exit status, as when a signal
    /// kills it.
    Killed,
    /// The tool could not be started.
    LaunchFailed { cause: String },
}

/// A process report as contracts see it.
pub enum ProcessReportView {
    Exited { code: i32 },
    Killed,
    LaunchFailed { cause: Seq<char> },
}

impl View for ProcessReport {
    type V = ProcessReportView;

    open spec fn view(&self) -> ProcessReportView {
        match *self {
            ProcessReport::Exited { code } => ProcessReportView::Exited { code },
            ProcessReport::Killed => ProcessReportView::Killed,
            ProcessReport::LaunchFailed { cause } => ProcessReportView::LaunchFailed {
                cause: cause@,
            },
        }
    }
}

/// What a run amounts to: success for exit status 0, and otherwise a
/// failure with its cause in words.
pub open spec fn verdict(report: ProcessReportView) -> Result<(), Seq<char>> {
    match report {
        ProcessReportView::Exited { code } => if code == 0 {
            Ok(())
        } else {
            Err("stress tool exited with status "@ + signed_decimal(code as int))
        },
        ProcessReportView::Killed => Err("stress tool ended without an exit status"@),
        ProcessReportView::LaunchFailed { cause } => Err("stress tool could not be started: "@
            + cause),
    }
}

/// Judges one run of the tool.
pub fn judge(report: &ProcessReport) -> (judged: Result<(), String>)
    ensures
        outcome_view(judged) == verdict(report@),
{
    match report {
        ProcessReport::Exited { code } => {
            if *code == 0 {
                Ok(())
            } else {
                let mut cause = String::from_str("stress tool exited with status ");
                cause.append(signed_decimal_string(*code).as_str());
                Err(cause)
            }
        },
        ProcessReport::Killed => Err(String::from_str("stress tool ended without an exit status")),
        ProcessReport::LaunchFailed { cause } => {
            let mut words = String::from_str("stress tool could not be started: ");
            words.append(cause.as_str());
            Err(words)
        },
    }
}

} // verus!

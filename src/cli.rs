//! What the command line asks for, and what it answers.

use vstd::prelude::*;

use crate::reporter::ReportTimespan;
use crate::time::TimeSpan;
use crate::tracker::StartupStatus;

verus! {

/// The command line failed.
#[derive(Debug, Clone, Copy, PartialEq, Eq, Structural)]
pub struct CliError;

impl CliError {
    pub fn message(&self) -> &'static str {
        "a CLI error occurred"
    }
}

/// A subcommand.
#[derive(Debug, Clone, Copy, PartialEq, Eq, Structural)]
pub enum Command {
    /// Start tracking time
    Start,
    /// Stop tracking time
    Stop,
    /// Print the time tracked over the last day
    Report,
}

/// The span that `report` covers: one day.
pub const REPORT_WINDOW_SECS: u64 = 86400;

/// The window that the `report` subcommand covers.
pub fn report_timespan() -> (r: ReportTimespan)
    ensures
        r == ReportTimespan::Last(TimeSpan { millis: 86_400_000 }),
{
    ReportTimespan::Last(TimeSpan::from_secs(REPORT_WINDOW_SECS))
}

/// Whether `start` has something to tell the user: only when a session was
/// running already, which is no failure.
pub fn start_notice(status: StartupStatus) -> (r: Option<&'static str>)
    ensures
        r is Some <==> status == StartupStatus::Running,
{
    match status {
        StartupStatus::Started => None,
        StartupStatus::Running => Some("tracker already running"),
    }
}

} // verus!

//! A tracker kept in two files: a marker file whose presence means a session
//! is running, and which holds its start time, and a log file that holds the
//! completed records.
//!
//! The files themselves are read and written by the caller. This module
//! decides: it says which file operation comes next and what a session's
//! outcome is, from what the previous operations found. Stopping takes
//! several operations, and their order is what keeps an interval from being
//! lost: the record is saved to the log before the marker is removed, so a
//! crash in between leaves the session running rather than forgotten.
//!
//! Saving the log rewrites the whole file; two processes stopping at once
//! against the same log may lose one of the records. Only the marker, created
//! exclusively, guards against two sessions running at once.

use vstd::prelude::*;

use crate::time::{closed_record, EndTime, StartTime, TimeRecord};
use crate::tracker::{StartupStatus, TrackerError, TrackerErrorKind};

verus! {

/// Which step of the file tracker failed.
#[derive(Debug, Clone, Copy, PartialEq, Eq, Structural)]
pub enum FlatFileFailure {
    /// `stop` found no marker: no session is running.
    NotRunning,
    /// The marker could not be created, for another reason than that it exists.
    MarkerCreate,
    /// The marker was created but its start time could not be written.
    MarkerWrite,
    /// The marker exists but could not be read or parsed.
    MarkerRead,
    /// The log could not be read or parsed.
    LogRead,
    /// The log could not be written.
    LogWrite,
    /// The marker could not be removed.
    MarkerRemove,
    /// An event came that the current step does not wait for.
    UnexpectedEvent,
}

#[derive(Debug, Clone, Copy, PartialEq, Eq, Structural)]
pub struct FlatFileTrackerError {
    pub kind: FlatFileFailure,
}

/// The tracker error that a failure of the file tracker amounts to.
pub open spec fn tracker_error_of(e: FlatFileTrackerError) -> TrackerError {
    TrackerError {
        kind: if e.kind == FlatFileFailure::NotRunning {
            TrackerErrorKind::NotRunning
        } else {
            TrackerErrorKind::Store
        },
    }
}

impl FlatFileTrackerError {
    pub fn to_tracker_error(&self) -> (r: TrackerError)
        ensures
            r == tracker_error_of(*self),
    {
        match self.kind {
            FlatFileFailure::NotRunning => TrackerError { kind: TrackerErrorKind::NotRunning },
            _ => TrackerError { kind: TrackerErrorKind::Store },
        }
    }
}

/// What an exclusive creation of the marker, holding the start time, did.
#[derive(Debug, Clone, Copy, PartialEq, Eq, Structural)]
pub enum MarkerCreation {
    /// The marker was created and the start time written into it.
    Created,
    /// A marker exists already.
    AlreadyExists,
    /// The marker could not be created for another reason.
    CreateFailed,
    /// The marker was created but writing the start time failed.
    WriteFailed,
}

/// The outcome of `start` after the marker creation `c`.
pub open spec fn start_result(c: MarkerCreation) -> Result<StartupStatus, FlatFileTrackerError> {
    match c {
        MarkerCreation::Created => Ok(StartupStatus::Started),
        MarkerCreation::AlreadyExists => Ok(StartupStatus::Running),
        MarkerCreation::CreateFailed => Err(
            FlatFileTrackerError { kind: FlatFileFailure::MarkerCreate },
        ),
        MarkerCreation::WriteFailed => Err(
            FlatFileTrackerError { kind: FlatFileFailure::MarkerWrite },
        ),
    }
}

/// A tracker over a log file at `db` and a marker file at `lockfile`.
#[derive(Debug)]
pub struct FlatFileTracker {
    pub db: String,
    pub lockfile: String,
}

impl FlatFileTracker {
    pub fn new(db: String, lockfile: String) -> (r: FlatFileTracker)
        ensures
            r.db == db,
            r.lockfile == lockfile,
    {
        FlatFileTracker { db, lockfile }
    }

    /// The start time to write into the marker of a new session.
    pub fn session_start(&self) -> (r: StartTime)
        ensures
            r.millis >= 0,
    {
        StartTime::now()
    }

    /// The outcome of `start`, once the marker has been created exclusively:
    /// a marker that exists already means a session is running, which is no
    /// error.
    pub fn start_outcome(&self, creation: MarkerCreation) -> (r: Result<
        StartupStatus,
        FlatFileTrackerError,
    >)
        ensures
            r == start_result(creation),
    {
        match creation {
            MarkerCreation::Created => Ok(StartupStatus::Started),
            MarkerCreation::AlreadyExists => Ok(StartupStatus::Running),
            MarkerCreation::CreateFailed => Err(
                FlatFileTrackerError { kind: FlatFileFailure::MarkerCreate },
            ),
            MarkerCreation::WriteFailed => Err(
                FlatFileTrackerError { kind: FlatFileFailure::MarkerWrite },
            ),
        }
    }

    /// The first step of `stop`: read the marker.
    pub fn begin_stop(&self) -> (r: StopStage)
        ensures
            r == StopStage::ReadingMarker,
    {
        StopStage::ReadingMarker
    }
}

/// Where a `stop` stands.
#[derive(Debug, Clone, Copy, PartialEq, Eq, Structural)]
pub enum StopStage {
    /// Waiting for the marker's start time.
    ReadingMarker,
    /// Waiting for the log, to which this record is to be added.
    LoadingLog(TimeRecord),
    /// Waiting for the log, with the record, to be saved.
    SavingLog,
    /// Waiting for the marker to be removed.
    RemovingMarker,
    /// The stop is over.
    Finished,
}

/// What the last file operation of a `stop` found.
#[derive(Debug)]
pub enum StopEvent {
    /// The marker holds this start time.
    MarkerRead(StartTime),
    /// There is no marker.
    MarkerMissing,
    /// The marker could not be read or parsed.
    MarkerUnreadable,
    /// The log holds these records; a missing or empty log file holds none.
    LogLoaded(Vec<TimeRecord>),
    /// The log could not be read or parsed.
    LogUnreadable,
    LogSaved,
    LogSaveFailed,
    MarkerRemoved,
    MarkerRemoveFailed,
}

/// The file operation that a `stop` asks for next.
#[derive(Debug)]
pub enum StopAction {
    /// Read the log.
    LoadLog,
    /// Write these records as the whole log.
    SaveLog(Vec<TimeRecord>),
    /// Remove the marker.
    RemoveMarker,
    /// Nothing more: this is the outcome of `stop`.
    Finish(Result<(), FlatFileTrackerError>),
}

/// A `StopAction`, with the records as a sequence.
pub ghost enum StopPlan {
    LoadLog,
    SaveLog(Seq<TimeRecord>),
    RemoveMarker,
    Finish(Result<(), FlatFileTrackerError>),
}

impl StopAction {
    pub open spec fn plan(self) -> StopPlan {
        match self {
            StopAction::LoadLog => StopPlan::LoadLog,
            StopAction::SaveLog(records) => StopPlan::SaveLog(records@),
            StopAction::RemoveMarker => StopPlan::RemoveMarker,
            StopAction::Finish(r) => StopPlan::Finish(r),
        }
    }
}

pub open spec fn stop_failure(kind: FlatFileFailure) -> (StopStage, StopPlan) {
    (StopStage::Finished, StopPlan::Finish(Err(FlatFileTrackerError { kind })))
}

/// The next stage and operation of a `stop` at `stage` when `event` comes,
/// the time being `now`.
pub open spec fn stop_transition(stage: StopStage, event: StopEvent, now: EndTime) -> (
    StopStage,
    StopPlan,
) {
    match (stage, event) {
        (StopStage::ReadingMarker, StopEvent::MarkerRead(start)) => (
            StopStage::LoadingLog(closed_record(start, now)),
            StopPlan::LoadLog,
        ),
        (StopStage::ReadingMarker, StopEvent::MarkerMissing) => stop_failure(
            FlatFileFailure::NotRunning,
        ),
        (StopStage::ReadingMarker, StopEvent::MarkerUnreadable) => stop_failure(
            FlatFileFailure::MarkerRead,
        ),
        (StopStage::LoadingLog(record), StopEvent::LogLoaded(records)) => (
            StopStage::SavingLog,
            StopPlan::SaveLog(records@.push(record)),
        ),
        (StopStage::LoadingLog(_), StopEvent::LogUnreadable) => stop_failure(
            FlatFileFailure::LogRead,
        ),
        (StopStage::SavingLog, StopEvent::LogSaved) => (
            StopStage::RemovingMarker,
            StopPlan::RemoveMarker,
        ),
        (StopStage::SavingLog, StopEvent::LogSaveFailed) => stop_failure(
            FlatFileFailure::LogWrite,
        ),
        (StopStage::RemovingMarker, StopEvent::MarkerRemoved) => (
            StopStage::Finished,
            StopPlan::Finish(Ok(())),
        ),
        (StopStage::RemovingMarker, StopEvent::MarkerRemoveFailed) => stop_failure(
            FlatFileFailure::MarkerRemove,
        ),
        _ => stop_failure(FlatFileFailure::UnexpectedEvent),
    }
}

fn fail_stop(kind: FlatFileFailure) -> (r: (StopStage, StopAction))
    ensures
        (r.0, r.1.plan()) == stop_failure(kind),
{
    (StopStage::Finished, StopAction::Finish(Err(FlatFileTrackerError { kind })))
}

impl StopStage {
    /// The next stage and file operation when `event` comes at this stage,
    /// the time being `now`.
    pub fn next_at(self, event: StopEvent, now: EndTime) -> (r: (StopStage, StopAction))
        ensures
            (r.0, r.1.plan()) == stop_transition(self, event, now),
    {
        match self {
            StopStage::ReadingMarker => match event {
                StopEvent::MarkerRead(start) => (
                    StopStage::LoadingLog(TimeRecord::closed_at(start, now)),
                    StopAction::LoadLog,
                ),
                StopEvent::MarkerMissing => fail_stop(FlatFileFailure::NotRunning),
                StopEvent::MarkerUnreadable => fail_stop(FlatFileFailure::MarkerRead),
                _ => fail_stop(FlatFileFailure::UnexpectedEvent),
            },
            StopStage::LoadingLog(record) => match event {
                StopEvent::LogLoaded(records) => {
                    let mut records = records;
                    records.push(record);
                    (StopStage::SavingLog, StopAction::SaveLog(records))
                },
                StopEvent::LogUnreadable => fail_stop(FlatFileFailure::LogRead),
                _ => fail_stop(FlatFileFailure::UnexpectedEvent),
            },
            StopStage::SavingLog => match event {
                StopEvent::LogSaved => (StopStage::RemovingMarker, StopAction::RemoveMarker),
                StopEvent::LogSaveFailed => fail_stop(FlatFileFailure::LogWrite),
                _ => fail_stop(FlatFileFailure::UnexpectedEvent),
            },
            StopStage::RemovingMarker => match event {
                StopEvent::MarkerRemoved => (StopStage::Finished, StopAction::Finish(Ok(()))),
                StopEvent::MarkerRemoveFailed => fail_stop(FlatFileFailure::MarkerRemove),
                _ => fail_stop(FlatFileFailure::UnexpectedEvent),
            },
            StopStage::Finished => fail_stop(FlatFileFailure::UnexpectedEvent),
        }
    }

    /// The next stage and file operation when `event` comes at this stage;
    /// the session's end is taken as the current time.
    pub fn next(self, event: StopEvent) -> (r: (StopStage, StopAction))
        ensures
            exists|now: EndTime|
                (r.0, r.1.plan()) == #[trigger] stop_transition(self, event, now),
    {
        let now = EndTime::now();
        self.next_at(event, now)
    }
}

/// The marker is removed only once the log has been saved: no step but a
/// saved log leads to the marker's removal.
pub proof fn marker_removed_only_after_save(stage: StopStage, event: StopEvent, now: EndTime)
    ensures
        stop_transition(stage, event, now).1 is RemoveMarker ==> stage is SavingLog
            && event is LogSaved,
{
}

/// The log that `stop` saves is the log it loaded with exactly one record
/// added at the end: the session's, which starts at the marker's start time
/// and does not end before it.
pub proof fn saved_log_adds_one_record(
    start: StartTime,
    read_at: EndTime,
    loaded: Vec<TimeRecord>,
    saved_at: EndTime,
)
    ensures
        ({
            let (stage, _) = stop_transition(
                StopStage::ReadingMarker,
                StopEvent::MarkerRead(start),
                read_at,
            );
            let (_, plan) = stop_transition(stage, StopEvent::LogLoaded(loaded), saved_at);
            &&& stage == StopStage::LoadingLog(closed_record(start, read_at))
            &&& plan == StopPlan::SaveLog(loaded@.push(closed_record(start, read_at)))
            &&& closed_record(start, read_at).start == start
            &&& closed_record(start, read_at).wf()
        }),
{
}

} // verus!

//! The tracker state machine: an idle tracker is started, a running one is
//! stopped, and each stop leaves one closed interval in the log.

use vstd::prelude::*;

use crate::time::{closed_record, EndTime, StartTime, TimeRecord};

verus! {

/// What `start` found.
#[derive(Debug, Clone, Copy, PartialEq, Eq, Structural)]
pub enum StartupStatus {
    /// Time tracker started
    Started,
    /// Time tracker already running
    Running,
}

/// Why a tracker call failed.
#[derive(Debug, Clone, Copy, PartialEq, Eq, Structural)]
pub enum TrackerErrorKind {
    /// `stop` was called with no session running.
    NotRunning,
    /// The store behind the tracker could not be read or written.
    Store,
}

#[derive(Debug, Clone, Copy, PartialEq, Eq, Structural)]
pub struct TrackerError {
    pub kind: TrackerErrorKind,
}

impl TrackerError {
    pub fn message(&self) -> (r: &'static str) {
        match self.kind {
            TrackerErrorKind::NotRunning => "no session to stop",
            TrackerErrorKind::Store => "filesystem tracker error",
        }
    }
}

/// The abstract state of a tracker: the running session, if any, with the
/// time it started, and the log of completed intervals in the order they
/// were stopped.
pub ghost struct TrackerModel {
    pub session: Option<StartTime>,
    pub log: Seq<TimeRecord>,
}

impl TrackerModel {
    pub open spec fn running(self) -> bool {
        self.session is Some
    }

    /// Every logged interval ends no earlier than it starts.
    pub open spec fn wf(self) -> bool {
        forall|i: int| 0 <= i < self.log.len() ==> #[trigger] self.log[i].wf()
    }
}

/// What `start` reports on a tracker in state `m`.
pub open spec fn start_status(m: TrackerModel) -> StartupStatus {
    if m.running() {
        StartupStatus::Running
    } else {
        StartupStatus::Started
    }
}

/// The state after `start` at time `now`: a running tracker is left as it is.
pub open spec fn after_start(m: TrackerModel, now: StartTime) -> TrackerModel {
    if m.running() {
        m
    } else {
        TrackerModel { session: Some(now), log: m.log }
    }
}

/// The state after `stop` at time `now`: the running session is closed and
/// its interval appended to the log; an idle tracker is left as it is.
pub open spec fn after_stop(m: TrackerModel, now: EndTime) -> TrackerModel {
    match m.session {
        Some(start) => TrackerModel { session: None, log: m.log.push(closed_record(start, now)) },
        None => m,
    }
}

/// A call on a tracker, with the time at which it is made.
pub ghost enum TrackerOp {
    Start(StartTime),
    Stop(EndTime),
}

pub open spec fn apply_op(m: TrackerModel, op: TrackerOp) -> TrackerModel {
    match op {
        TrackerOp::Start(t) => after_start(m, t),
        TrackerOp::Stop(t) => after_stop(m, t),
    }
}

/// The state after the calls `ops`, made in order from state `m`.
pub open spec fn apply_ops(m: TrackerModel, ops: Seq<TrackerOp>) -> TrackerModel
    decreases ops.len(),
{
    if ops.len() == 0 {
        m
    } else {
        apply_op(apply_ops(m, ops.drop_last()), ops.last())
    }
}

/// After any sequence of calls, a session is running exactly when the last
/// call was a `start`; with no call at all, the state is the initial one.
pub proof fn running_follows_last_call(m: TrackerModel, ops: Seq<TrackerOp>)
    ensures
        apply_ops(m, ops).running() == if ops.len() == 0 {
            m.running()
        } else {
            ops.last() is Start
        },
{
}

/// Every state reached by calls from a well-formed state is well formed:
/// no logged interval ends before it starts.
pub proof fn calls_keep_records_well_formed(m: TrackerModel, ops: Seq<TrackerOp>)
    requires
        m.wf(),
    ensures
        apply_ops(m, ops).wf(),
    decreases ops.len(),
{
    if ops.len() > 0 {
        calls_keep_records_well_formed(m, ops.drop_last());
        let prev = apply_ops(m, ops.drop_last());
        let next = apply_op(prev, ops.last());
        assert forall|i: int| 0 <= i < next.log.len() implies #[trigger] next.log[i].wf() by {
            if i < prev.log.len() {
                assert(next.log[i] == prev.log[i]);
            }
        }
    }
}

/// `start` on an idle tracker reports `Started`; a second `start` right
/// after reports `Running` and changes nothing, the log included.
pub proof fn second_start_reports_running(m: TrackerModel, first: StartTime, second: StartTime)
    requires
        !m.running(),
    ensures
        start_status(m) == StartupStatus::Started,
        start_status(after_start(m, first)) == StartupStatus::Running,
        after_start(after_start(m, first), second) == after_start(m, first),
        after_start(m, first).log == m.log,
{
}

/// `stop` after `start` leaves the tracker idle with exactly one new record,
/// which starts when the session started and does not end before it.
pub proof fn stop_after_start_logs_one_record(m: TrackerModel, started: StartTime, stopped: EndTime)
    requires
        !m.running(),
    ensures
        ({
            let after = after_stop(after_start(m, started), stopped);
            &&& !after.running()
            &&& after.log.len() == m.log.len() + 1
            &&& after.log.drop_last() == m.log
            &&& after.log.last().start == started
            &&& after.log.last().wf()
        }),
{
    let after = after_stop(after_start(m, started), stopped);
    assert(after.log.drop_last() =~= m.log);
}

/// `stop` on an idle tracker changes nothing: no record is added.
pub proof fn stop_when_idle_changes_nothing(m: TrackerModel, stopped: EndTime)
    requires
        !m.running(),
    ensures
        after_stop(m, stopped) == m,
{
}

/// Once begun, a session keeps the start time it was begun with through any
/// number of further `start` calls, until it is stopped.
pub proof fn session_start_is_kept(m: TrackerModel, started: StartTime, later: Seq<TrackerOp>)
    requires
        !m.running(),
        forall|i: int| 0 <= i < later.len() ==> #[trigger] later[i] is Start,
    ensures
        apply_ops(after_start(m, started), later).session == Some(started),
    decreases later.len(),
{
    if later.len() > 0 {
        let rest = later.drop_last();
        assert forall|i: int| 0 <= i < rest.len() implies #[trigger] rest[i] is Start by {
            assert(rest[i] == later[i]);
        }
        session_start_is_kept(m, started, rest);
        assert(later[later.len() - 1] is Start);
    }
}

/// A time tracker: one session at a time, and a log of completed sessions.
pub trait Tracker {
    /// The tracker's abstract state.
    spec fn model(&self) -> TrackerModel;

    /// Whether the store behind the tracker never fails. When it holds,
    /// `start`, `records` and a `stop` with a session running succeed.
    spec fn infallible_store(&self) -> bool;

    /// Begins a session, unless one is running already.
    fn start(&mut self) -> (r: Result<StartupStatus, TrackerError>)
        ensures
            final(self).infallible_store() == old(self).infallible_store(),
            old(self).infallible_store() ==> r is Ok,
            r is Ok ==> r->Ok_0 == start_status(old(self).model()),
            r is Ok ==> exists|now: StartTime|
                final(self).model() == #[trigger] after_start(old(self).model(), now),
            r is Err ==> r->Err_0.kind == TrackerErrorKind::Store,
            r is Err ==> final(self).model() == old(self).model(),
            old(self).model().running() ==> final(self).model() == old(self).model(),
    ;

    /// Ends the running session and logs its interval; fails with
    /// `NotRunning` when no session is running.
    fn stop(&mut self) -> (r: Result<(), TrackerError>)
        ensures
            final(self).infallible_store() == old(self).infallible_store(),
            !old(self).model().running() ==> r == Err::<(), TrackerError>(
                TrackerError { kind: TrackerErrorKind::NotRunning },
            ),
            old(self).model().running() && old(self).infallible_store() ==> r is Ok,
            r is Ok ==> exists|now: EndTime|
                final(self).model() == #[trigger] after_stop(old(self).model(), now),
            r is Err ==> final(self).model() == old(self).model(),
    ;

    /// Whether a session is running.
    fn is_running(&self) -> (r: bool)
        ensures
            r == self.model().running(),
    ;

    /// The log of completed sessions, oldest first.
    fn records(&self) -> (r: Result<Vec<TimeRecord>, TrackerError>)
        ensures
            self.infallible_store() ==> r is Ok,
            r is Ok ==> r->Ok_0@ == self.model().log,
            r is Err ==> r->Err_0.kind == TrackerErrorKind::Store,
    ;
}

/// A tracker that keeps its session and its log in memory.
#[derive(Debug)]
pub struct MemoryTracker {
    pub tracking: Option<StartTime>,
    pub records: Vec<TimeRecord>,
}

impl MemoryTracker {
    /// An idle tracker with an empty log.
    pub fn new() -> (r: MemoryTracker)
        ensures
            r.model() == (TrackerModel { session: None, log: Seq::empty() }),
    {
        MemoryTracker { tracking: None, records: Vec::new() }
    }
}

impl Tracker for MemoryTracker {
    open spec fn model(&self) -> TrackerModel {
        TrackerModel { session: self.tracking, log: self.records@ }
    }

    open spec fn infallible_store(&self) -> bool {
        true
    }

    fn start(&mut self) -> (r: Result<StartupStatus, TrackerError>) {
        if self.tracking.is_some() {
            assert(self.model() == after_start(old(self).model(), StartTime { millis: 0 }));
            Ok(StartupStatus::Running)
        } else {
            let now = StartTime::now();
            self.tracking = Some(now);
            assert(self.model() == after_start(old(self).model(), now));
            Ok(StartupStatus::Started)
        }
    }

    fn stop(&mut self) -> (r: Result<(), TrackerError>) {
        match self.tracking {
            None => Err(TrackerError { kind: TrackerErrorKind::NotRunning }),
            Some(start) => {
                let now = EndTime::now();
                let record = TimeRecord::closed_at(start, now);
                self.records.push(record);
                self.tracking = None;
                assert(self.model() == after_stop(old(self).model(), now));
                Ok(())
            },
        }
    }

    fn is_running(&self) -> (r: bool) {
        self.tracking.is_some()
    }

    fn records(&self) -> (r: Result<Vec<TimeRecord>, TrackerError>) {
        Ok(self.records.clone())
    }
}

} // verus!

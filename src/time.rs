//! Points in time and spans of time, counted in milliseconds.

use vstd::prelude::*;

verus! {

/// Relies on `chrono::Utc::now` and `DateTime::timestamp_millis`: the current
/// time in milliseconds since the Unix epoch. `Utc::now` panics on a clock set
/// before the epoch, so a value that comes back is not negative.
#[verifier::external_body]
fn now_millis() -> (r: i64)
    ensures
        r >= 0,
{
    chrono::Utc::now().timestamp_millis()
}

/// The moment a session started, in milliseconds since the Unix epoch (UTC).
#[derive(Debug, Clone, Copy, PartialEq, Eq, Structural)]
pub struct StartTime {
    pub millis: i64,
}

/// The moment a session ended, in milliseconds since the Unix epoch (UTC).
#[derive(Debug, Clone, Copy, PartialEq, Eq, Structural)]
pub struct EndTime {
    pub millis: i64,
}

impl StartTime {
    /// The current time.
    pub fn now() -> (r: StartTime)
        ensures
            r.millis >= 0,
    {
        StartTime { millis: now_millis() }
    }

    pub fn from_timestamp_millis(millis: i64) -> (r: StartTime)
        ensures
            r.millis == millis,
    {
        StartTime { millis }
    }

    pub fn timestamp_millis(&self) -> (r: i64)
        ensures
            r == self.millis,
    {
        self.millis
    }
}

impl EndTime {
    /// The current time.
    pub fn now() -> (r: EndTime)
        ensures
            r.millis >= 0,
    {
        EndTime { millis: now_millis() }
    }

    pub fn from_timestamp_millis(millis: i64) -> (r: EndTime)
        ensures
            r.millis == millis,
    {
        EndTime { millis }
    }

    pub fn timestamp_millis(&self) -> (r: i64)
        ensures
            r == self.millis,
    {
        self.millis
    }
}

/// The length of a closed interval.
pub open spec fn duration_of(r: TimeRecord) -> int {
    r.end.millis - r.start.millis
}

/// One completed session: when it started and when it ended.
#[derive(Debug, Clone, Copy, PartialEq, Eq, Structural)]
pub struct TimeRecord {
    pub start: StartTime,
    pub end: EndTime,
}

impl TimeRecord {
    /// A record is well formed when it does not end before it starts.
    pub open spec fn wf(&self) -> bool {
        self.end.millis >= self.start.millis
    }

    /// The record of the interval from `start` to `end`; `None` when `end`
    /// comes before `start`.
    pub fn new(start: StartTime, end: EndTime) -> (r: Option<TimeRecord>)
        ensures
            r == (if end.millis >= start.millis {
                Some(TimeRecord { start, end })
            } else {
                None::<TimeRecord>
            }),
    {
        if end.millis >= start.millis {
            Some(TimeRecord { start, end })
        } else {
            None
        }
    }

    /// The record of a session that started at `start` and is closed at
    /// `now`. A clock that went back since the start gives an empty interval
    /// rather than a negative one.
    pub fn closed_at(start: StartTime, now: EndTime) -> (r: TimeRecord)
        ensures
            r == closed_record(start, now),
            r.wf(),
    {
        if now.millis >= start.millis {
            TimeRecord { start, end: now }
        } else {
            TimeRecord { start, end: EndTime { millis: start.millis } }
        }
    }

    pub fn start(&self) -> (r: StartTime)
        ensures
            r == self.start,
    {
        self.start
    }

    pub fn end(&self) -> (r: EndTime)
        ensures
            r == self.end,
    {
        self.end
    }
}

/// The record that closing a session begun at `start` at time `now` leaves.
pub open spec fn closed_record(start: StartTime, now: EndTime) -> TimeRecord {
    TimeRecord {
        start,
        end: if now.millis >= start.millis { now } else { EndTime { millis: start.millis } },
    }
}

/// A non-negative span of time, in milliseconds.
#[derive(Debug, Clone, Copy, PartialEq, Eq, Structural)]
pub struct TimeSpan {
    pub millis: u64,
}

impl TimeSpan {
    pub fn from_millis(millis: u64) -> (r: TimeSpan)
        ensures
            r.millis == millis,
    {
        TimeSpan { millis }
    }

    pub fn from_secs(secs: u64) -> (r: TimeSpan)
        requires
            secs * 1000 <= u64::MAX,
        ensures
            r.millis == secs * 1000,
    {
        TimeSpan { millis: secs * 1000 }
    }

    pub fn as_millis(&self) -> (r: u64)
        ensures
            r == self.millis,
    {
        self.millis
    }

    /// The whole seconds in the span; the remaining milliseconds are dropped.
    pub fn as_secs(&self) -> (r: u64)
        ensures
            r == self.millis / 1000,
    {
        self.millis / 1000
    }
}

} // verus!

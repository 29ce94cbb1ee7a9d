//! Reports over the log: the time recorded within a window before now.

use vstd::prelude::*;

use crate::time::{duration_of, EndTime, TimeRecord, TimeSpan};
use crate::tracker::Tracker;

verus! {

/// Which records a report covers.
#[derive(Debug, Clone, Copy, PartialEq, Eq, Structural)]
pub enum ReportTimespan {
    /// The records that started within this span before now.
    Last(TimeSpan),
}

impl ReportTimespan {
    pub open spec fn window_millis(self) -> int {
        match self {
            ReportTimespan::Last(span) => span.millis as int,
        }
    }
}

/// Why a report could not be made.
#[derive(Debug, Clone, Copy, PartialEq, Eq, Structural)]
pub enum ReporterErrorKind {
    /// The tracker's records could not be read.
    Records,
    /// The total is negative or too large for a `TimeSpan`.
    OutOfRange,
}

#[derive(Debug, Clone, Copy, PartialEq, Eq, Structural)]
pub struct ReporterError {
    pub kind: ReporterErrorKind,
}

/// Whether `r` started within `[earliest, now]`.
pub open spec fn in_window(r: TimeRecord, earliest: int, now: int) -> bool {
    earliest <= r.start.millis <= now
}

/// The summed durations of the records in `log` that started within
/// `[earliest, now]`.
pub open spec fn window_total(log: Seq<TimeRecord>, earliest: int, now: int) -> int
    decreases log.len(),
{
    if log.len() == 0 {
        0
    } else {
        window_total(log.drop_last(), earliest, now) + if in_window(log.last(), earliest, now) {
            duration_of(log.last())
        } else {
            0
        }
    }
}

/// The summed durations of all records in `log`.
pub open spec fn log_total(log: Seq<TimeRecord>) -> int
    decreases log.len(),
{
    if log.len() == 0 {
        0
    } else {
        log_total(log.drop_last()) + duration_of(log.last())
    }
}

/// What a report of `timespan` at time `now` over `log` amounts to.
pub open spec fn report_total(log: Seq<TimeRecord>, timespan: ReportTimespan, now: int) -> int {
    window_total(log, now - timespan.window_millis(), now)
}

/// The time recorded in `records` within `timespan` before `now`; fails with
/// `OutOfRange` when that total is negative or above `u64::MAX`
/// milliseconds.
pub fn total_duration_at(records: &Vec<TimeRecord>, timespan: ReportTimespan, now: EndTime) -> (r:
    Result<TimeSpan, ReporterError>)
    ensures
        r is Ok <==> 0 <= report_total(records@, timespan, now.millis as int) <= u64::MAX,
        r is Ok ==> r->Ok_0.millis == report_total(records@, timespan, now.millis as int),
        r is Err ==> r->Err_0.kind == ReporterErrorKind::OutOfRange,
{
    let window: u64 = match timespan {
        ReportTimespan::Last(span) => span.millis,
    };
    let earliest: i128 = now.millis as i128 - window as i128;
    let ghost log = records@;
    // The positive and the negative durations are summed apart, so that
    // neither sum can overflow.
    let mut gained: u128 = 0;
    let mut lost: u128 = 0;
    let mut i: usize = 0;
    while i < records.len()
        invariant
            i <= records.len(),
            log == records@,
            earliest == now.millis - timespan.window_millis(),
            gained <= i * 0xFFFF_FFFF_FFFF_FFFFu128,
            lost <= i * 0xFFFF_FFFF_FFFF_FFFFu128,
            gained - lost == window_total(log.take(i as int), earliest as int, now.millis as int),
        decreases records.len() - i,
    {
        let rec = records[i];
        assert(log.take(i + 1).drop_last() =~= log.take(i as int));
        if earliest <= rec.start.millis as i128 && rec.start.millis <= now.millis {
            if rec.end.millis >= rec.start.millis {
                gained = gained + (rec.end.millis as i128 - rec.start.millis as i128) as u128;
            } else {
                lost = lost + (rec.start.millis as i128 - rec.end.millis as i128) as u128;
            }
        }
        i = i + 1;
    }
    assert(log.take(records.len() as int) =~= log);
    if gained < lost || gained - lost > u64::MAX as u128 {
        Err(ReporterError { kind: ReporterErrorKind::OutOfRange })
    } else {
        Ok(TimeSpan { millis: (gained - lost) as u64 })
    }
}

/// Reports over a tracker's log.
pub trait Reporter: Tracker {
    /// The time recorded within `timespan` before now.
    fn total_duration(&self, timespan: ReportTimespan) -> (r: Result<TimeSpan, ReporterError>)
        ensures
            r is Ok ==> exists|now: int|
                now >= 0 && r->Ok_0.millis == #[trigger] report_total(
                    self.model().log,
                    timespan,
                    now,
                ),
            r is Err && r->Err_0.kind == ReporterErrorKind::Records ==> !self.infallible_store(),
            r is Err && r->Err_0.kind == ReporterErrorKind::OutOfRange ==> exists|now: int|
                now >= 0 && !(0 <= #[trigger] report_total(self.model().log, timespan, now)
                    <= u64::MAX),
    {
        match self.records() {
            Err(_) => Err(ReporterError { kind: ReporterErrorKind::Records }),
            Ok(records) => {
                let now = EndTime::now();
                let r = total_duration_at(&records, timespan, now);
                assert(r is Ok ==> r->Ok_0.millis == report_total(
                    self.model().log,
                    timespan,
                    now.millis as int,
                ));
                assert(r is Err ==> !(0 <= report_total(self.model().log, timespan, now.millis as int)
                    <= u64::MAX));
                r
            },
        }
    }
}

impl Reporter for crate::tracker::MemoryTracker {

}

/// A report over an empty log is zero, whatever the window and the time.
pub proof fn empty_log_reports_zero(timespan: ReportTimespan, now: int)
    ensures
        report_total(Seq::empty(), timespan, now) == 0,
{
}

/// When every record of `log` started within the window, a report is the
/// exact sum of their durations.
pub proof fn report_of_records_within_window(
    log: Seq<TimeRecord>,
    timespan: ReportTimespan,
    now: int,
)
    requires
        forall|i: int|
            0 <= i < log.len() ==> #[trigger] in_window(
                log[i],
                now - timespan.window_millis(),
                now,
            ),
    ensures
        report_total(log, timespan, now) == log_total(log),
    decreases log.len(),
{
    if log.len() > 0 {
        let rest = log.drop_last();
        assert forall|i: int| 0 <= i < rest.len() implies #[trigger] in_window(
            rest[i],
            now - timespan.window_millis(),
            now,
        ) by {
            assert(rest[i] == log[i]);
        }
        report_of_records_within_window(rest, timespan, now);
        assert(in_window(log[log.len() - 1], now - timespan.window_millis(), now));
    }
}

/// A record that started outside the window adds nothing to a report,
/// wherever it stands in the log.
pub proof fn report_excludes_records_outside_window(
    before: Seq<TimeRecord>,
    outside: TimeRecord,
    after: Seq<TimeRecord>,
    timespan: ReportTimespan,
    now: int,
)
    requires
        !in_window(outside, now - timespan.window_millis(), now),
    ensures
        report_total(before.push(outside) + after, timespan, now) == report_total(
            before + after,
            timespan,
            now,
        ),
    decreases after.len(),
{
    if after.len() == 0 {
        assert(before.push(outside) + after =~= before.push(outside));
        assert(before + after =~= before);
        assert(before.push(outside).drop_last() =~= before);
    } else {
        let rest = after.drop_last();
        report_excludes_records_outside_window(before, outside, rest, timespan, now);
        assert((before.push(outside) + after).drop_last() =~= before.push(outside) + rest);
        assert((before + after).drop_last() =~= before + rest);
    }
}

} // verus!

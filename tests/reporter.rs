use time_tracker::reporter::{total_duration_at, ReportTimespan, Reporter, ReporterErrorKind};
use time_tracker::time::{EndTime, StartTime, TimeRecord, TimeSpan};
use time_tracker::tracker::{MemoryTracker, Tracker};

fn record(start: i64, end: i64) -> TimeRecord {
    TimeRecord {
        start: StartTime::from_timestamp_millis(start),
        end: EndTime::from_timestamp_millis(end),
    }
}

fn wait_millis(ms: i64) {
    let begin = StartTime::now().timestamp_millis();
    while StartTime::now().timestamp_millis() - begin < ms {}
}

#[test]
fn calculates_correct_duration_when_there_are_no_records() {
    // Given a default tracker
    let tracker = MemoryTracker::new();

    // When calculating duration
    let duration = tracker
        .total_duration(ReportTimespan::Last(TimeSpan::from_secs(1)))
        .unwrap();

    // Then there is no duration due to no records
    assert_eq!(duration, TimeSpan::from_millis(0));
}

#[test]
fn calculates_correct_duration_when_there_are_two_records() {
    // Given a tracker of two records
    let mut tracker = MemoryTracker::new();

    for _ in 0..2 {
        tracker.start().unwrap();
        wait_millis(10);
        tracker.stop().unwrap()
    }

    // When the duration is calculated
    let duration = tracker
        .total_duration(ReportTimespan::Last(TimeSpan::from_secs(1)))
        .unwrap();
    // Then duration is at least 20ms
    assert!(duration.as_millis() >= 20);
}

#[test]
fn one_session_of_ten_millis_is_reported() {
    let mut tracker = MemoryTracker::new();
    let t0 = StartTime::now().timestamp_millis();
    tracker.start().unwrap();
    wait_millis(10);
    tracker.stop().unwrap();
    let t1 = EndTime::now().timestamp_millis();

    let records = tracker.records().unwrap();
    assert_eq!(records.len(), 1);
    let spent = records[0].end.timestamp_millis() - records[0].start.timestamp_millis();
    assert!(spent >= 10);
    assert!(spent <= t1 - t0);

    let duration = tracker
        .total_duration(ReportTimespan::Last(TimeSpan::from_secs(1)))
        .unwrap();
    assert!(duration.as_millis() >= 10);
}

#[test]
fn exact_sum_within_window() {
    let records = vec![record(1_000, 1_250), record(2_000, 2_010), record(3_000, 4_000)];
    let now = EndTime::from_timestamp_millis(5_000);
    let total = total_duration_at(&records, ReportTimespan::Last(TimeSpan::from_secs(10)), now);
    assert_eq!(total, Ok(TimeSpan::from_millis(1_260)));
}

#[test]
fn records_outside_window_are_excluded() {
    // Starts before the window, inside it, at its lower edge, and after now.
    let records = vec![
        record(1_000, 1_500),
        record(4_500, 4_600),
        record(4_000, 4_040),
        record(6_000, 6_500),
    ];
    let now = EndTime::from_timestamp_millis(5_000);
    let total = total_duration_at(&records, ReportTimespan::Last(TimeSpan::from_secs(1)), now);
    assert_eq!(total, Ok(TimeSpan::from_millis(140)));
}

#[test]
fn empty_log_reports_zero_at_any_time() {
    let records: Vec<TimeRecord> = Vec::new();
    let now = EndTime::from_timestamp_millis(123_456);
    let total = total_duration_at(&records, ReportTimespan::Last(TimeSpan::from_millis(0)), now);
    assert_eq!(total, Ok(TimeSpan::from_millis(0)));
}

#[test]
fn negative_total_is_out_of_range() {
    let records = vec![record(1_000, 900)];
    let now = EndTime::from_timestamp_millis(2_000);
    let total = total_duration_at(&records, ReportTimespan::Last(TimeSpan::from_secs(5)), now);
    assert_eq!(total.unwrap_err().kind, ReporterErrorKind::OutOfRange);
}

#[test]
fn negative_record_is_summed_as_is() {
    let records = vec![record(1_000, 900), record(1_100, 1_400)];
    let now = EndTime::from_timestamp_millis(2_000);
    let total = total_duration_at(&records, ReportTimespan::Last(TimeSpan::from_secs(5)), now);
    assert_eq!(total, Ok(TimeSpan::from_millis(200)));
}

#[test]
fn largest_durations_do_not_overflow() {
    let records = vec![record(i64::MIN, i64::MAX)];
    let now = EndTime::from_timestamp_millis(i64::MAX);
    let total = total_duration_at(&records, ReportTimespan::Last(TimeSpan::from_millis(u64::MAX)), now);
    assert_eq!(total, Ok(TimeSpan::from_millis(u64::MAX)));

    let two = vec![record(i64::MIN, i64::MAX), record(0, 1)];
    let total = total_duration_at(&two, ReportTimespan::Last(TimeSpan::from_millis(u64::MAX)), now);
    assert_eq!(total.unwrap_err().kind, ReporterErrorKind::OutOfRange);
}

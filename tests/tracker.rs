use time_tracker::time::{EndTime, StartTime, TimeRecord};
use time_tracker::tracker::{MemoryTracker, StartupStatus, Tracker, TrackerErrorKind};

#[test]
fn memory_tracker_start_twice_reports_running() {
    let mut tracker = MemoryTracker::new();
    assert!(!tracker.is_running());
    assert_eq!(tracker.start().unwrap(), StartupStatus::Started);
    assert!(tracker.is_running());
    let started = tracker.tracking;
    assert_eq!(tracker.start().unwrap(), StartupStatus::Running);
    assert_eq!(tracker.tracking, started);
    assert!(tracker.records().unwrap().is_empty());
}

#[test]
fn memory_tracker_stop_after_start_adds_one_record() {
    let mut tracker = MemoryTracker::new();
    tracker.start().unwrap();
    let started = tracker.tracking.unwrap();
    tracker.stop().unwrap();
    assert!(!tracker.is_running());
    let records = tracker.records().unwrap();
    assert_eq!(records.len(), 1);
    assert_eq!(records[0].start, started);
    assert!(records[0].end.timestamp_millis() >= records[0].start.timestamp_millis());
}

#[test]
fn memory_tracker_stop_when_idle_fails() {
    let mut tracker = MemoryTracker::new();
    let err = tracker.stop().unwrap_err();
    assert_eq!(err.kind, TrackerErrorKind::NotRunning);
    assert!(tracker.records().unwrap().is_empty());
    assert!(!tracker.is_running());
}

#[test]
fn running_follows_the_last_call() {
    let mut tracker = MemoryTracker::new();
    tracker.start().unwrap();
    tracker.stop().unwrap();
    assert!(!tracker.is_running());
    assert!(tracker.stop().is_err());
    assert!(!tracker.is_running());
    tracker.start().unwrap();
    tracker.start().unwrap();
    assert!(tracker.is_running());
    tracker.stop().unwrap();
    assert!(!tracker.is_running());
    assert_eq!(tracker.records().unwrap().len(), 2);
}

#[test]
fn time_record_rejects_end_before_start() {
    let start = StartTime::from_timestamp_millis(100);
    assert_eq!(TimeRecord::new(start, EndTime::from_timestamp_millis(99)), None);
    let rec = TimeRecord::new(start, EndTime::from_timestamp_millis(100)).unwrap();
    assert_eq!(rec.end().timestamp_millis(), 100);
    assert_eq!(rec.start(), start);
}

#[test]
fn closing_clamps_a_clock_that_went_back() {
    let start = StartTime::from_timestamp_millis(500);
    let rec = TimeRecord::closed_at(start, EndTime::from_timestamp_millis(400));
    assert_eq!(rec.end.timestamp_millis(), 500);
    let rec = TimeRecord::closed_at(start, EndTime::from_timestamp_millis(750));
    assert_eq!(rec.end.timestamp_millis(), 750);
}

#[test]
fn now_is_after_the_epoch() {
    assert!(StartTime::now().timestamp_millis() > 1_500_000_000_000);
    assert!(EndTime::now().timestamp_millis() > 1_500_000_000_000);
}

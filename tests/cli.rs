use time_tracker::cli::{report_timespan, start_notice};
use time_tracker::reporter::ReportTimespan;
use time_tracker::time::TimeSpan;
use time_tracker::tracker::StartupStatus;

#[test]
fn start_notice_only_when_running() {
    assert_eq!(start_notice(StartupStatus::Started), None);
    assert_eq!(start_notice(StartupStatus::Running), Some("tracker already running"));
}

#[test]
fn report_covers_one_day() {
    assert_eq!(report_timespan(), ReportTimespan::Last(TimeSpan::from_millis(86_400_000)));
}

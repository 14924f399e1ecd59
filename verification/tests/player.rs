use melody::tabs::player::state::{percent, AudioStatus, Progress};
use std::time::{Duration, Instant};

#[test]
fn percent_is_the_share_in_whole_hundredths() {
    assert_eq!(percent(0, 10), 0);
    assert_eq!(percent(1, 3), 33);
    assert_eq!(percent(2, 3), 66);
    assert_eq!(percent(5, 10), 50);
    assert_eq!(percent(10, 10), 100);
    assert_eq!(percent(11, 10), 100);
    assert_eq!(percent(u64::MAX, 1), 100);
    assert_eq!(percent(u64::MAX / 2, u64::MAX), 49);
}

#[test]
fn resting_progress_reports_what_was_played() {
    let progress = Progress::new(Duration::from_millis(90_500), None);
    assert_eq!(progress.seconds(), 90);
    assert_eq!(progress.total_duration(), Duration::from_millis(90_500));
    assert_eq!(progress.percentage(Duration::from_secs(180)), 50);
    assert_eq!(progress.percentage(Duration::from_secs(60)), 100);
    assert_eq!(Progress::default().seconds(), 0);
}

#[test]
fn pause_after_adds_the_span_once() {
    let mut progress = Progress::new(Duration::from_secs(10), Some(Instant::now()));
    progress.pause_after(Duration::from_secs(5));
    assert_eq!(progress.total_duration(), Duration::from_secs(15));
    progress.pause_after(Duration::from_secs(5));
    assert_eq!(progress.total_duration(), Duration::from_secs(15));
}

#[test]
fn pause_after_keeps_what_was_played_where_the_sum_overflows() {
    let mut progress = Progress::new(Duration::from_secs(u64::MAX), Some(Instant::now()));
    progress.pause_after(Duration::from_secs(1));
    assert_eq!(progress.total_duration(), Duration::from_secs(u64::MAX));
}

#[test]
fn total_after_adds_the_span_of_a_running_clock() {
    let progress = Progress::new(Duration::from_secs(10), None);
    assert_eq!(progress.total_after(Some(Duration::from_secs(3))), Duration::from_secs(13));
    assert_eq!(progress.total_after(None), Duration::from_secs(10));
    let progress = Progress::new(Duration::MAX, None);
    assert_eq!(progress.total_after(Some(Duration::from_nanos(1))), Duration::MAX);
}

#[test]
fn start_and_pause_never_lose_time() {
    let mut progress = Progress::new(Duration::from_secs(7), None);
    progress.pause();
    assert_eq!(progress.total_duration(), Duration::from_secs(7));
    progress.start();
    assert!(progress.seconds() >= 7);
    assert!(progress.total_duration() >= Duration::from_secs(7));
    progress.pause();
    let paused = progress.total_duration();
    assert!(paused >= Duration::from_secs(7));
    assert_eq!(progress.total_duration(), paused);
}

#[test]
fn audio_status_toggles() {
    assert_eq!(AudioStatus::Pause.toggled(), AudioStatus::Play);
    assert_eq!(AudioStatus::Play.toggled(), AudioStatus::Pause);
}

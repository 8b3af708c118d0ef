use timed_emitters::error::ConfigError;
use timed_emitters::interval::IntervalTimer;
use timed_emitters::schedule::{cron_step, CronStep, ScheduleTimer};
use timed_emitters::task_slot::SlotChange;

fn started(c: SlotChange) -> (u64, Option<u64>) {
    match c {
        SlotChange::Started { token, abort } => (token, abort),
        _ => panic!("a task must start"),
    }
}

#[test]
fn interval_default_is_ten_seconds() {
    let t = IntervalTimer::new(None).unwrap();
    assert_eq!(t.period_ms(), 10_000);
}

#[test]
fn interval_bad_value_refused() {
    assert!(matches!(
        IntervalTimer::new(Some("often")),
        Err(ConfigError::InvalidFormat)
    ));
}

#[test]
fn interval_ticks_until_stopped() {
    let mut t = IntervalTimer::new(Some("50ms")).unwrap();
    assert_eq!(t.period_ms(), 50);
    let (token, abort) = started(t.start());
    assert_eq!(abort, None);
    for _ in 0..3 {
        assert!(t.tick(token));
    }
    assert_eq!(t.stop(), Some(token));
    assert!(!t.tick(token));
}

#[test]
fn interval_unchanged_value_keeps_task() {
    let mut t = IntervalTimer::new(Some("10s")).unwrap();
    let (token, _) = started(t.start());
    assert!(matches!(t.set_config(Some("10s")), Ok(SlotChange::Unchanged)));
    assert!(matches!(t.set_config(Some("10000ms")), Ok(SlotChange::Unchanged)));
    assert!(matches!(t.set_config(None), Ok(SlotChange::Unchanged)));
    assert!(t.tick(token));
}

#[test]
fn interval_new_value_restarts_running_task() {
    let mut t = IntervalTimer::new(Some("10s")).unwrap();
    let (first, _) = started(t.start());
    let (second, abort) = started(t.set_config(Some("50ms")).unwrap());
    assert_eq!(abort, Some(first));
    assert_ne!(second, first);
    assert_eq!(t.period_ms(), 50);
    assert!(!t.tick(first));
    assert!(t.tick(second));
}

#[test]
fn interval_new_value_while_stopped_starts_nothing() {
    let mut t = IntervalTimer::new(Some("10s")).unwrap();
    assert!(matches!(t.set_config(Some("1m")), Ok(SlotChange::Unchanged)));
    assert_eq!(t.period_ms(), 60_000);
}

#[test]
fn interval_bad_value_changes_nothing() {
    let mut t = IntervalTimer::new(Some("10s")).unwrap();
    let (token, _) = started(t.start());
    assert_eq!(t.set_config(Some("10y")).err(), Some(ConfigError::UnknownUnit));
    assert_eq!(t.period_ms(), 10_000);
    assert!(t.tick(token));
}

#[test]
fn schedule_invalid_expression_refused() {
    assert!(matches!(
        ScheduleTimer::new(Some("every hour")),
        Err(ConfigError::InvalidSchedule)
    ));
}

#[test]
fn schedule_blank_means_none() {
    let mut t = ScheduleTimer::new(Some("   ")).unwrap();
    assert!(!t.has_schedule());
    assert!(matches!(t.start(), SlotChange::Stopped { abort: None }));
    assert!(matches!(t.next_wait(1_700_000_000_000), CronStep::Finished));
}

// 2023-11-14T22:13:20Z
const NOW_MS: i64 = 1_700_000_000_000;
// 2023-11-14T23:00:00Z
const NEXT_HOUR_MS: i64 = 1_700_002_800_000;

#[test]
fn schedule_fires_once_per_instant() {
    let mut t = ScheduleTimer::new(Some("0 0 * * * *")).unwrap();
    assert!(t.has_schedule());
    let (token, _) = started(t.start());
    match t.next_wait(NOW_MS) {
        CronStep::Wait { at_ms, wait_ms } => {
            assert_eq!(at_ms, NEXT_HOUR_MS);
            assert_eq!(wait_ms, 2_800_000);
        }
        _ => panic!("an hourly schedule always has a next instant"),
    }
    // the clock reaches the instant
    assert!(t.fire(token, NEXT_HOUR_MS));
    match t.next_wait(NEXT_HOUR_MS) {
        CronStep::Wait { at_ms, wait_ms } => {
            assert_eq!(at_ms, NEXT_HOUR_MS + 3_600_000);
            assert_eq!(wait_ms, 3_600_000);
        }
        _ => panic!("an hourly schedule always has a next instant"),
    }
}

#[test]
fn schedule_every_second() {
    let t = ScheduleTimer::new(Some("* * * * * *")).unwrap();
    match t.next_wait(NOW_MS + 250) {
        CronStep::Wait { at_ms, wait_ms } => {
            assert_eq!(at_ms, NOW_MS + 1000);
            assert_eq!(wait_ms, 750);
        }
        _ => panic!("a schedule of every second always has a next instant"),
    }
}

#[test]
fn schedule_past_its_years_finishes() {
    let t = ScheduleTimer::new(Some("0 0 0 1 1 * 2020")).unwrap();
    assert!(matches!(t.next_wait(NOW_MS), CronStep::Finished));
}

#[test]
fn schedule_unchanged_expression_keeps_task() {
    let mut t = ScheduleTimer::new(Some("0 0 * * * *")).unwrap();
    let (token, _) = started(t.start());
    assert!(matches!(
        t.set_config(Some("0 0 * * * *")),
        Ok(SlotChange::Unchanged)
    ));
    assert!(t.fire(token, NEXT_HOUR_MS));
}

#[test]
fn schedule_new_expression_restarts_task() {
    let mut t = ScheduleTimer::new(Some("0 0 * * * *")).unwrap();
    let (first, _) = started(t.start());
    let (second, abort) = started(t.set_config(Some("0 30 * * * *")).unwrap());
    assert_eq!(abort, Some(first));
    assert!(!t.fire(first, NEXT_HOUR_MS));
    assert!(t.fire(second, NEXT_HOUR_MS));
}

#[test]
fn schedule_blank_expression_stops_task() {
    let mut t = ScheduleTimer::new(Some("0 0 * * * *")).unwrap();
    let (token, _) = started(t.start());
    assert!(matches!(
        t.set_config(Some("")),
        Ok(SlotChange::Stopped { abort: Some(a) }) if a == token
    ));
    assert!(!t.has_schedule());
    assert!(!t.fire(token, NEXT_HOUR_MS));
}

#[test]
fn schedule_bad_expression_changes_nothing() {
    let mut t = ScheduleTimer::new(Some("0 0 * * * *")).unwrap();
    let (token, _) = started(t.start());
    assert!(matches!(
        t.set_config(Some("61 * * * * *")),
        Err(ConfigError::InvalidSchedule)
    ));
    assert!(t.has_schedule());
    assert!(t.fire(token, NEXT_HOUR_MS));
}

#[test]
fn schedule_stop_silences_task() {
    let mut t = ScheduleTimer::new(Some("0 0 * * * *")).unwrap();
    let (token, _) = started(t.start());
    assert_eq!(t.stop(), Some(token));
    assert!(!t.fire(token, NEXT_HOUR_MS));
}

#[test]
fn cron_step_cases() {
    assert!(matches!(
        cron_step(Some(5_000), 2_000),
        CronStep::Wait { at_ms: 5_000, wait_ms: 3_000 }
    ));
    assert!(matches!(
        cron_step(Some(2_000), 2_000),
        CronStep::Wait { at_ms: 2_000, wait_ms: 0 }
    ));
    assert!(matches!(
        cron_step(Some(1_000), 2_000),
        CronStep::Retry { wait_ms: 60_000 }
    ));
    assert!(matches!(cron_step(None, 2_000), CronStep::Finished));
}

#[test]
fn schedule_early_wake_does_not_repeat_instant() {
    let mut t = ScheduleTimer::new(Some("0 0 * * * *")).unwrap();
    let (token, _) = started(t.start());
    assert!(t.fire(token, NEXT_HOUR_MS));
    // the clock lags behind the instant just emitted
    match t.next_wait(NEXT_HOUR_MS - 5) {
        CronStep::Wait { at_ms, wait_ms } => {
            assert_eq!(at_ms, NEXT_HOUR_MS + 3_600_000);
            assert_eq!(wait_ms, 3_600_005);
        }
        _ => panic!("an hourly schedule always has a next instant"),
    }
}

#[test]
fn schedule_blank_on_running_timer_stops_and_start_installs_nothing() {
    let mut t = ScheduleTimer::new(Some("0 0 * * * *")).unwrap();
    let (token, _) = started(t.start());
    assert!(matches!(
        t.set_config(Some("  ")),
        Ok(SlotChange::Stopped { abort: Some(a) }) if a == token
    ));
    assert!(matches!(t.start(), SlotChange::Stopped { abort: None }));
    assert!(matches!(t.next_wait(NOW_MS), CronStep::Finished));
}

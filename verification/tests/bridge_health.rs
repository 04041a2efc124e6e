use std::time::{Duration, Instant};
use yt_music::bridge_health::{
    BridgeHealthState, BridgeReadings, BridgeStatus, MAX_RECOVERY_ATTEMPTS, STALE_THRESHOLD_SECS,
};

#[test]
fn fresh_state_is_starting() {
    let state = BridgeHealthState::new();
    let report = state.report();
    assert_eq!(report.status, "starting");
    assert_eq!(report.total_heartbeats, 0);
    assert_eq!(report.recovery_attempts, 0);
}

#[test]
fn heartbeat_makes_state_healthy() {
    let mut state = BridgeHealthState::new();
    state.record_heartbeat();
    let report = state.report();
    assert_eq!(report.status, "healthy");
    assert_eq!(report.total_heartbeats, 1);
}

#[test]
fn state_becomes_degraded_after_stale() {
    let mut state = BridgeHealthState::new();
    state.record_heartbeat();
    // Simulate time passing beyond stale threshold: the heartbeat came at
    // start-up, which lies that long in the past
    state.startup = Instant::now() - Duration::from_secs(STALE_THRESHOLD_SECS + 2);
    state.last_heartbeat = Some(0);
    let report = state.report();
    assert_eq!(report.status, "degraded");
}

#[test]
fn state_is_dead_if_no_heartbeat_long_enough() {
    let state = BridgeHealthState {
        startup: Instant::now() - Duration::from_secs(STALE_THRESHOLD_SECS + 10),
        last_heartbeat: None,
        total_heartbeats: 0,
        recovery_attempts: 0,
        last_recovery: None,
    };
    let report = state.report();
    assert_eq!(report.status, "dead");
}

#[test]
fn should_recover_false_when_bridge_healthy() {
    let mut state = BridgeHealthState::new();
    state.record_heartbeat();
    assert!(!state.should_recover());
}

#[test]
fn should_recover_true_when_bridge_dead_and_cooldown_ok() {
    let mut state = BridgeHealthState::new();
    // Simulate startup far in the past (no heartbeat ever received)
    state.startup = Instant::now() - Duration::from_secs(STALE_THRESHOLD_SECS + 10);
    assert!(state.should_recover());
}

#[test]
fn should_recover_false_at_max_attempts() {
    let mut state = BridgeHealthState::new();
    state.recovery_attempts = MAX_RECOVERY_ATTEMPTS;
    state.startup = Instant::now() - Duration::from_secs(STALE_THRESHOLD_SECS + 10);
    assert!(!state.should_recover());
}

#[test]
fn record_recovery_increments_attempts() {
    let mut state = BridgeHealthState::new();
    assert_eq!(state.recovery_attempts, 0);
    state.record_recovery();
    assert_eq!(state.recovery_attempts, 1);
    assert!(state.last_recovery.is_some());
}

#[test]
fn multiple_heartbeats_counted() {
    let mut state = BridgeHealthState::new();
    for _ in 0..5 {
        state.record_heartbeat();
    }
    assert_eq!(state.total_heartbeats, 5);
    assert!(state.last_heartbeat.is_some());
}

#[test]
fn exponential_backoff_delays_recovery() {
    let mut state = BridgeHealthState::new();
    state.startup = Instant::now() - Duration::from_secs(STALE_THRESHOLD_SECS + 10);
    state.record_recovery(); // attempt 1, cooldown = 30s
    // Immediately checking should return false (cooldown not elapsed)
    assert!(!state.should_recover());
}

/// Nanoseconds in a millisecond.
const MS: u64 = 1_000_000;

/// Readings given in milliseconds.
fn readings(startup: u64, heartbeat: Option<u64>, recovery: Option<u64>) -> BridgeReadings {
    BridgeReadings {
        since_startup_ns: startup * MS,
        since_heartbeat_ns: heartbeat.map(|h| h * MS),
        since_recovery_ns: recovery.map(|r| r * MS),
    }
}

#[test]
fn status_boundaries_by_readings() {
    let s = BridgeHealthState::new();
    assert_eq!(BridgeHealthState::status_from(&readings(0, Some(9_999), None)), BridgeStatus::Healthy);
    assert_eq!(BridgeHealthState::status_from(&readings(0, Some(10_000), None)), BridgeStatus::Degraded);
    assert_eq!(BridgeHealthState::status_from(&readings(14_999, None, None)), BridgeStatus::Starting);
    assert_eq!(BridgeHealthState::status_from(&readings(15_000, None, None)), BridgeStatus::Dead);
    let rep = s.report_from(&readings(20_000, None, None));
    assert_eq!(rep.status, "dead");
    assert_eq!(rep.last_heartbeat_ms_ago, 20_000);
}

#[test]
fn report_uses_heartbeat_age() {
    let mut s = BridgeHealthState::new();
    s.record_heartbeat();
    let rep = s.report_from(&readings(50_000, Some(1_234), None));
    assert_eq!(rep.status, "healthy");
    assert_eq!(rep.last_heartbeat_ms_ago, 1_234);
    assert_eq!(rep.total_heartbeats, 1);
}

#[test]
fn recovery_needs_silence_past_threshold() {
    let s = BridgeHealthState::new();
    // exactly ten seconds is stale but not yet dead
    assert!(!s.should_recover_from(&readings(0, Some(10_999), None)));
    assert!(s.should_recover_from(&readings(0, Some(11_000), None)));
    assert!(!s.should_recover_from(&readings(10_999, None, None)));
    assert!(s.should_recover_from(&readings(11_000, None, None)));
}

#[test]
fn backoff_doubles_with_each_attempt() {
    let mut s = BridgeHealthState::new();
    s.recovery_attempts = 1;
    // after the first attempt the wait is the 30 s cooldown
    assert!(!s.should_recover_from(&readings(100_000, None, Some(30_999))));
    assert!(s.should_recover_from(&readings(100_000, None, Some(31_000))));
    s.recovery_attempts = 2;
    // then it doubles: 60 s after the second
    assert!(!s.should_recover_from(&readings(100_000, None, Some(60_999))));
    assert!(s.should_recover_from(&readings(100_000, None, Some(61_000))));
    s.recovery_attempts = 4;
    // and 240 s after the fourth
    assert!(!s.should_recover_from(&readings(1_000_000, None, Some(240_999))));
    assert!(s.should_recover_from(&readings(1_000_000, None, Some(241_000))));
}

#[test]
fn watchdog_step_records_only_due_recoveries() {
    let mut s = BridgeHealthState::new();
    assert!(!s.watchdog_step_at(5_000 * MS));
    assert_eq!(s.recovery_attempts, 0);
    assert!(s.watchdog_step_at(20_000 * MS));
    assert_eq!(s.recovery_attempts, 1);
    assert_eq!(s.last_recovery, Some(20_000 * MS));
    // 45 s after the first recovery the 30 s cooldown is over
    assert!(s.should_recover_at(65_000 * MS));
    assert!(!s.should_recover_at(50_000 * MS));
    s.recovery_attempts = MAX_RECOVERY_ATTEMPTS;
    assert!(!s.watchdog_step_at(10_000_000 * MS));
    assert_eq!(s.recovery_attempts, MAX_RECOVERY_ATTEMPTS);
}

#[test]
fn first_cooldown_is_thirty_seconds() {
    let mut state = BridgeHealthState::new();
    state.startup = Instant::now() - Duration::from_secs(65);
    state.recovery_attempts = 1;
    // recovery 45 s ago, no heartbeat ever
    state.last_recovery = Some(20_000 * MS);
    assert!(state.should_recover());
}

#[test]
fn heartbeat_times_are_measured_from_the_heartbeat() {
    let mut s = BridgeHealthState::new();
    s.record_heartbeat_at(30_000 * MS);
    // start-up is long past, the heartbeat is fresh
    let rep = s.report_at(35_000 * MS);
    assert_eq!(rep.status, "healthy");
    assert_eq!(rep.last_heartbeat_ms_ago, 5_000);
    let rep = s.report_at(41_000 * MS);
    assert_eq!(rep.status, "degraded");
    assert!(!s.should_recover_at(40_999 * MS));
    assert!(s.should_recover_at(41_000 * MS));
}

#[test]
fn watchdog_step_now_on_dead_bridge() {
    let mut s = BridgeHealthState::new();
    s.startup = Instant::now() - Duration::from_secs(STALE_THRESHOLD_SECS + 10);
    assert!(s.watchdog_step());
    assert_eq!(s.recovery_attempts, 1);
    // the cooldown now holds it back
    assert!(!s.watchdog_step());
    assert_eq!(s.recovery_attempts, 1);
}

#[test]
fn status_text_words() {
    assert_eq!(BridgeStatus::Healthy.text(), "healthy");
    assert_eq!(BridgeStatus::Degraded.text(), "degraded");
    assert_eq!(BridgeStatus::Starting.text(), "starting");
    assert_eq!(BridgeStatus::Dead.text(), "dead");
}

#[test]
fn recovery_can_fall_in_starting_window() {
    // no heartbeat for twelve seconds: still "starting", yet already silent
    // past the stale threshold
    let s = BridgeHealthState::new();
    let r = readings(12_000, None, None);
    assert_eq!(BridgeHealthState::status_from(&r), BridgeStatus::Starting);
    assert!(s.should_recover_from(&r));
}

#[test]
fn ages_are_exact_below_a_millisecond() {
    let mut s = BridgeHealthState::new();
    // heartbeat 0.7 ms after start-up, report 10000.3 ms after: 9999.6 ms old
    s.record_heartbeat_at(700_000);
    let rep = s.report_at(10_000_300_000);
    assert_eq!(rep.status, "healthy");
    assert_eq!(rep.last_heartbeat_ms_ago, 9_999);
}

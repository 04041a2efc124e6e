use yt_music::diagnostics::{chrono_now, panic_line, timestamp_from, DiagnosticsEntry, DiagnosticsState, MAX_EVENTS};

#[test]
fn new_log_is_empty() {
    let s = DiagnosticsState::new();
    assert!(s.get_events().is_empty());
}

#[test]
fn events_kept_in_order() {
    let mut s = DiagnosticsState::new();
    s.record_event_at("1", "info", "first", "here");
    s.record_event_at("2", "warn", "second", "there");
    let ev = s.get_events();
    assert_eq!(ev.len(), 2);
    assert_eq!(ev[0].message(), "first");
    assert_eq!(ev[0].timestamp(), "1");
    assert_eq!(ev[1].level(), "warn");
    assert_eq!(ev[1].location(), "there");
}

#[test]
fn log_keeps_latest_fifty() {
    let mut s = DiagnosticsState::new();
    for i in 0..(MAX_EVENTS + 7) {
        let msg = format!("event {i}");
        s.record_event_at("0", "info", &msg, "loop");
    }
    let ev = s.get_events();
    assert_eq!(ev.len(), MAX_EVENTS);
    assert_eq!(ev[0].message(), "event 7");
    assert_eq!(ev[MAX_EVENTS - 1].message(), format!("event {}", MAX_EVENTS + 6));
}

#[test]
fn record_event_stamps_unix_seconds() {
    let mut s = DiagnosticsState::new();
    s.record_event("error", "boom", "test");
    let ev = s.get_events();
    assert_eq!(ev.len(), 1);
    let ts: u64 = ev[0].timestamp().parse().unwrap();
    assert!(ts > 1_600_000_000);
    assert_eq!(ev[0].message(), "boom");
}

#[test]
fn timestamps_are_decimal() {
    assert_eq!(timestamp_from(Some(0)), "0");
    assert_eq!(timestamp_from(Some(1725029869)), "1725029869");
    assert_eq!(timestamp_from(Some(u64::MAX)), "18446744073709551615");
    assert_eq!(timestamp_from(None), "0");
    let now: u64 = chrono_now().parse().unwrap();
    assert!(now > 1_600_000_000);
}

#[test]
fn entry_copy_and_uptime() {
    let e = DiagnosticsEntry::new("5", "info", "m", "l");
    let c = e.duplicate();
    assert_eq!(c.timestamp(), "5");
    assert_eq!(c.message(), "m");
    let s = DiagnosticsState::new();
    assert!(s.uptime_secs() < 5);
}

#[test]
fn panic_lines() {
    assert_eq!(
        panic_line(Some("boom"), Some(("src/lib.rs", 12, 5))),
        "[yt-music] PANIC: boom at src/lib.rs:12:5"
    );
    assert_eq!(panic_line(None, None), "[yt-music] PANIC: unknown panic at ");
}

#[test]
fn uptime_in_whole_seconds() {
    let s = DiagnosticsState::new();
    assert_eq!(s.uptime_secs_at(0), 0);
    assert_eq!(s.uptime_secs_at(999_999_999), 0);
    assert_eq!(s.uptime_secs_at(61_000_000_000), 61);
}

use boothy_core::timer::{compute_session_window, remaining_seconds, should_emit_t_minus_5, LocalInstant};
use chrono::{DateTime, Local, TimeZone, Timelike};

fn instant(t: DateTime<Local>) -> LocalInstant {
    LocalInstant { unix_seconds: t.timestamp(), minute: t.minute(), second: t.second() }
}

fn local(i: LocalInstant) -> DateTime<Local> {
    Local.timestamp_opt(i.unix_seconds, 0).unwrap()
}

fn shifted(i: LocalInstant, secs: i64) -> LocalInstant {
    instant(local(i) + chrono::Duration::seconds(secs))
}

#[test]
fn computes_end_boundary_at_minute_50() {
    let start = instant(Local.with_ymd_and_hms(2025, 1, 1, 10, 0, 0).unwrap());
    let window = compute_session_window(start);

    assert_eq!(window.end.minute, 50);
    assert_eq!(local(window.end).hour(), 10);
    assert_eq!(remaining_seconds(start, window.end), 50 * 60);
}

#[test]
fn computes_late_entry_remaining_time() {
    let start = instant(Local.with_ymd_and_hms(2025, 1, 1, 10, 42, 0).unwrap());
    let window = compute_session_window(start);

    assert_eq!(window.end.minute, 50);
    assert_eq!(remaining_seconds(start, window.end), 8 * 60);
}

#[test]
fn computes_t_minus_5_trigger_time() {
    let start = instant(Local.with_ymd_and_hms(2025, 1, 1, 10, 0, 0).unwrap());
    let window = compute_session_window(start);

    assert_eq!(window.t_minus_5_at.minute, 45);
    assert_eq!(remaining_seconds(window.t_minus_5_at, window.end), 5 * 60);
    assert!(should_emit_t_minus_5(window.t_minus_5_at, &window));
}

#[test]
fn does_not_emit_t_minus_5_before_threshold() {
    let start = instant(Local.with_ymd_and_hms(2025, 1, 1, 10, 0, 0).unwrap());
    let window = compute_session_window(start);
    let just_before = shifted(window.t_minus_5_at, -1);

    assert!(!should_emit_t_minus_5(just_before, &window));
}

#[test]
fn does_not_emit_t_minus_5_at_or_after_end() {
    let start = instant(Local.with_ymd_and_hms(2025, 1, 1, 10, 0, 0).unwrap());
    let window = compute_session_window(start);

    assert!(!should_emit_t_minus_5(window.end, &window));
    assert!(!should_emit_t_minus_5(shifted(window.end, 1), &window));
}

#[test]
fn reset_at_minute_59_and_remaining_never_negative() {
    let start = instant(Local.with_ymd_and_hms(2025, 1, 1, 10, 17, 33).unwrap());
    let window = compute_session_window(start);
    assert_eq!(window.reset_at.minute, 59);
    assert_eq!(window.reset_at.second, 0);
    assert_eq!(local(window.reset_at).hour(), 10);
    assert_eq!(remaining_seconds(window.reset_at, window.end), 0);
}

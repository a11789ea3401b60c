use boothy_core::monitor::{
    note_camera_status_internal, CameraAutoRestartDecision, CameraAutoRestartReason, CameraHealth,
    CameraStatusResponse, IpcConnectionState, StatusPollState,
};

fn no_restart() -> CameraAutoRestartDecision {
    CameraAutoRestartDecision { should_restart: false, reason: None }
}

fn status(connected: bool, camera_detected: bool) -> CameraStatusResponse {
    CameraStatusResponse {
        connected,
        camera_detected,
        session_destination: None,
        camera_model: None,
    }
}

const BASE: u64 = 1_000_000;

fn secs(s: u64) -> u64 {
    BASE + s * 1000
}

#[test]
fn note_camera_status_restarts_after_lost_detected() {
    let state = IpcConnectionState::Connected;
    let mut diag = CameraHealth::new();

    let detected = CameraStatusResponse {
        connected: true,
        camera_detected: true,
        session_destination: None,
        camera_model: Some("EOS".to_string()),
    };
    assert_eq!(note_camera_status_internal(state, &mut diag, &detected, BASE), no_restart());

    let not_detected = status(true, false);
    assert_eq!(note_camera_status_internal(state, &mut diag, &not_detected, secs(5)), no_restart());
    assert_eq!(note_camera_status_internal(state, &mut diag, &not_detected, secs(10)), no_restart());
    assert_eq!(note_camera_status_internal(state, &mut diag, &not_detected, secs(15)), no_restart());
    assert_eq!(
        note_camera_status_internal(state, &mut diag, &not_detected, secs(25)),
        CameraAutoRestartDecision {
            should_restart: true,
            reason: Some(CameraAutoRestartReason::LostAfterDetected)
        }
    );

    // Immediate follow-up is throttled.
    assert_eq!(note_camera_status_internal(state, &mut diag, &not_detected, secs(27)), no_restart());
}

#[test]
fn note_camera_status_restarts_after_prolonged_no_camera() {
    let state = IpcConnectionState::Connected;
    let mut diag = CameraHealth::new();
    let not_detected = status(true, false);

    for i in 0..7 {
        assert_eq!(
            note_camera_status_internal(state, &mut diag, &not_detected, secs(5 * i)),
            no_restart()
        );
    }

    assert_eq!(
        note_camera_status_internal(state, &mut diag, &not_detected, secs(45)),
        CameraAutoRestartDecision {
            should_restart: true,
            reason: Some(CameraAutoRestartReason::ProlongedNoCamera)
        }
    );
}

#[test]
fn physically_disconnected_camera_never_restarts() {
    let state = IpcConnectionState::Connected;
    let mut diag = CameraHealth::new();
    let off = status(false, false);
    for i in 0..25 {
        assert_eq!(note_camera_status_internal(state, &mut diag, &off, secs(5 * i)), no_restart());
        assert_eq!(diag.no_camera_streak, 0);
    }
}

#[test]
fn disconnected_link_decides_nothing_and_keeps_counters() {
    let mut diag = CameraHealth::new();
    diag.no_camera_streak = 7;
    let before = diag;
    let d = note_camera_status_internal(IpcConnectionState::Disconnected, &mut diag, &status(true, false), secs(100));
    assert_eq!(d, no_restart());
    assert_eq!(diag, before);
}

#[test]
fn startup_grace_resets_streak() {
    let mut diag = CameraHealth::new();
    diag.sidecar_connected_at = Some(BASE);
    diag.no_camera_streak = 3;
    let d = note_camera_status_internal(IpcConnectionState::Connected, &mut diag, &status(true, false), secs(9));
    assert_eq!(d, no_restart());
    assert_eq!(diag.no_camera_streak, 0);
    assert_eq!(diag.no_camera_since, None);
    let d = note_camera_status_internal(IpcConnectionState::Connected, &mut diag, &status(true, false), secs(10));
    assert_eq!(d, no_restart());
    assert_eq!(diag.no_camera_streak, 1);
    assert_eq!(diag.no_camera_since, Some(secs(10)));
}

#[test]
fn restart_records_time_and_throttle_is_strict() {
    let mut diag = CameraHealth::new();
    diag.last_camera_detected_at = Some(BASE);
    diag.no_camera_streak = 3;
    diag.no_camera_since = Some(BASE);
    let d = note_camera_status_internal(IpcConnectionState::Connected, &mut diag, &status(true, false), secs(20));
    assert!(d.should_restart);
    assert_eq!(diag.last_forced_restart_at, Some(secs(20)));
    // 29.999 s later: throttled; 30 s later: allowed again.
    let d = note_camera_status_internal(IpcConnectionState::Connected, &mut diag, &status(true, false), secs(50) - 1);
    assert_eq!(d, no_restart());
    assert_eq!(diag.last_forced_restart_at, Some(secs(20)));
    let d = note_camera_status_internal(IpcConnectionState::Connected, &mut diag, &status(true, false), secs(50));
    assert!(d.should_restart);
    assert_eq!(diag.last_forced_restart_at, Some(secs(50)));
}

#[test]
fn same_inputs_give_same_decision() {
    let mut a = CameraHealth::new();
    a.last_camera_detected_at = Some(BASE);
    a.no_camera_streak = 3;
    a.no_camera_since = Some(BASE);
    let mut b = a;
    let s = status(true, false);
    let da = note_camera_status_internal(IpcConnectionState::Connected, &mut a, &s, secs(21));
    let db = note_camera_status_internal(IpcConnectionState::Connected, &mut b, &s, secs(21));
    assert_eq!(da, db);
    assert_eq!(a, b);
}

#[test]
fn connection_state_names() {
    assert_eq!(IpcConnectionState::Connected.as_str(), "connected");
    assert_eq!(IpcConnectionState::Disconnected.as_str(), "disconnected");
    assert_eq!(IpcConnectionState::Reconnecting.as_str(), "reconnecting");
}

#[test]
fn status_poll_hints_only_on_change_and_first_failure() {
    let mut p = StatusPollState::new();
    assert_eq!(p.backoff_secs, 5);
    assert!(p.on_poll_success(Some((true, true))));
    assert!(!p.on_poll_success(Some((true, true))));
    assert!(p.on_poll_success(Some((true, false))));
    assert!(!p.on_poll_success(None));
    assert!(p.on_poll_failure());
    assert_eq!(p.backoff_secs, 10);
    assert!(!p.on_poll_failure());
    assert_eq!(p.backoff_secs, 10);
    assert!(!p.on_poll_success(Some((true, false))));
    assert_eq!(p.backoff_secs, 5);
    p.backoff_secs = 20;
    assert!(p.on_poll_failure());
    assert_eq!(p.backoff_secs, 30);
}

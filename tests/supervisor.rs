use boothy_core::error::{camera, import, BoothyError, ErrorSeverity};
use boothy_core::ipc::{
    decimal_text, frame_line, generate_correlation_id, generate_request_id, FrameError, IpcError, IpcErrorCode,
    IpcMessage, IpcMessageType, IPC_PROTOCOL_VERSION, photo_transferred_event, PhotoTransferredPayload,
};
use boothy_core::correlation;
use boothy_core::monitor::IpcConnectionState;
use boothy_core::supervisor::{
    classify_event, host_event_name, CameraIpcClient, IncomingAction, RequestOutcome, SidecarEvent,
    StartStep,
};

fn connected_client() -> CameraIpcClient {
    let mut c = CameraIpcClient::new();
    assert_eq!(c.begin_start(), StartStep::Proceed);
    c.pipe_connected(1000);
    c.end_start();
    c
}

fn camera_missing() -> IpcError {
    IpcError {
        code: IpcErrorCode::CameraNotConnected,
        message: "Camera missing".to_string(),
        context: None,
    }
}

#[test]
fn emits_photo_transferred_event_for_ui() {
    let message = IpcMessage::new_event(
        "event.camera.photoTransferred".to_string(),
        "corr-123".to_string(),
        "{\"path\":\"C:\\\\shots\\\\IMG_0001.CR3\",\"originalFilename\":\"IMG_0001.CR3\",\"fileSize\":2048}".to_string(),
    );
    let mut c = connected_client();
    assert!(matches!(c.handle_incoming(message.clone()), IncomingAction::Event));
    let kind = classify_event(&message.method);
    assert_eq!(kind, SidecarEvent::PhotoTransferred);
    assert_eq!(host_event_name(kind), Some("boothy-photo-transferred"));
    let event = photo_transferred_event(
        PhotoTransferredPayload {
            path: "C:\\shots\\IMG_0001.CR3".to_string(),
            transferred_at: "2026-01-01T00:00:00Z".to_string(),
            original_filename: "IMG_0001.CR3".to_string(),
            file_size: 2048,
        },
        message.correlation_id.clone(),
    );
    assert_eq!(event.path, "C:\\shots\\IMG_0001.CR3");
    assert_eq!(event.filename, "IMG_0001.CR3");
    assert_eq!(event.file_size, 2048);
    assert_eq!(event.correlation_id, "corr-123");
}

#[test]
fn emits_customer_safe_camera_error() {
    let mut c = connected_client();
    let message = IpcMessage::new_event("event.camera.error".to_string(), "corr-err".to_string(), "{}".to_string());
    assert_eq!(classify_event(&message.method), SidecarEvent::CameraError);
    assert_eq!(host_event_name(SidecarEvent::CameraError), Some("boothy-camera-error"));
    let e = c.note_camera_error(camera_missing());
    assert_eq!(e.code, "CAMERA_NOT_CONNECTED");
    assert_eq!(
        e.message,
        "Camera is not connected. Please check the camera connection and try again."
    );
    assert_eq!(e.diagnostic.as_deref(), Some("[CameraNotConnected] Camera missing"));
    assert_eq!(e.severity, ErrorSeverity::Critical);
}

#[test]
fn routes_response_to_pending_request() {
    let mut c = connected_client();
    c.begin_request("req-123", "corr-123").unwrap();
    assert!(c.pending.contains("req-123"));
    let message = IpcMessage::new_response(
        "camera.getStatus".to_string(),
        "corr-123".to_string(),
        "req-123".to_string(),
        "{\"connected\":true}".to_string(),
    );
    let payload = message.payload.clone();
    assert!(matches!(c.handle_incoming(message), IncomingAction::DeliverPayload));
    assert_eq!(payload.as_deref(), Some("{\"connected\":true}"));
    assert!(!c.pending.contains("req-123"));
}

#[test]
fn records_diagnostics_on_error_response() {
    let mut c = connected_client();
    c.begin_request("req-err", "corr-err").unwrap();
    let message = IpcMessage::new_error(
        "camera.getStatus".to_string(),
        "corr-err".to_string(),
        Some("req-err".to_string()),
        camera_missing(),
    );
    match c.handle_incoming(message) {
        IncomingAction::DeliverError(e) => assert_eq!(e.code, IpcErrorCode::CameraNotConnected),
        other => panic!("unexpected {:?}", other),
    }
    let snapshot = c.diagnostics_snapshot();
    let last = snapshot.last_error.unwrap_or_default();
    assert!(last.contains("CameraNotConnected"));
    assert!(last.contains("Camera missing"));
    assert!(!c.pending.contains("req-err"));
}

#[test]
fn late_response_has_no_waiter() {
    let mut c = connected_client();
    let message = IpcMessage::new_response("m".to_string(), "c".to_string(), "req-x".to_string(), "{}".to_string());
    assert!(matches!(c.handle_incoming(message), IncomingAction::NoWaiter));
}

#[test]
fn error_without_request_goes_to_ui() {
    let mut c = connected_client();
    let message = IpcMessage::new_error("m".to_string(), "c".to_string(), None, camera_missing());
    match c.handle_incoming(message) {
        IncomingAction::EmitError(e) => assert_eq!(e.code, "CAMERA_NOT_CONNECTED"),
        other => panic!("unexpected {:?}", other),
    }
}

#[test]
fn request_from_sidecar_is_unexpected() {
    let mut c = connected_client();
    let message = IpcMessage::new_request("m".to_string(), "c".to_string(), "r".to_string(), "{}".to_string());
    assert!(matches!(c.handle_incoming(message), IncomingAction::UnexpectedRequest));
}

#[test]
fn request_settles_exactly_once_for_every_outcome() {
    let outcomes = vec![
        RequestOutcome::Payload,
        RequestOutcome::Failed(camera_missing()),
        RequestOutcome::PipeUnavailable,
        RequestOutcome::WriterUnavailable,
        RequestOutcome::WriteFailed("broken pipe".to_string()),
        RequestOutcome::AckClosed,
        RequestOutcome::ResponseClosed,
        RequestOutcome::ResponseTimeout,
        RequestOutcome::WriteTimeout,
    ];
    for outcome in outcomes {
        let mut c = connected_client();
        c.begin_request("req-1", "corr-1").unwrap();
        let is_payload = matches!(outcome, RequestOutcome::Payload);
        let r = c.finish_request("req-1", "camera.getStatus", outcome, true);
        assert!(!c.pending.contains("req-1"));
        assert_eq!(r.result.is_ok(), is_payload);
    }
}

#[test]
fn request_failure_messages() {
    let mut c = connected_client();
    c.begin_request("a", "c").unwrap();
    let r = c.finish_request("a", "camera.getStatus", RequestOutcome::ResponseTimeout, true);
    assert_eq!(r.result.unwrap_err(), "Camera service is not responding. Please restart Boothy.");
    assert!(r.restart);
    let ui = r.ui_error.unwrap();
    assert_eq!(ui.code, "IPC_TIMEOUT");
    assert_eq!(ui.diagnostic.as_deref(), Some("IPC timeout during operation: camera.getStatus"));

    c.begin_request("b", "c").unwrap();
    let r = c.finish_request("b", "camera.getStatus", RequestOutcome::ResponseTimeout, false);
    assert!(r.ui_error.is_none());

    c.begin_request("c", "c").unwrap();
    c.begin_request("d", "c").unwrap();
    let r = c.finish_request("c", "camera.getStatus", RequestOutcome::WriteTimeout, true);
    assert_eq!(r.result.unwrap_err(), "IPC pipe write timeout during camera.getStatus");
    assert!(r.restart);
    assert_eq!(r.rejected, vec!["d".to_string()]);
    assert!(!c.is_connected());
    assert_eq!(c.diagnostics_snapshot().ipc_state, "disconnected");
}

#[test]
fn request_refused_when_not_connected() {
    let mut c = CameraIpcClient::new();
    assert_eq!(c.begin_request("r", "c").unwrap_err(), "Sidecar not connected");
    assert_eq!(c.diagnostics_snapshot().last_error.as_deref(), Some("Sidecar not connected"));
}

#[test]
fn disconnect_rejects_every_pending_request_once() {
    let mut c = connected_client();
    c.begin_request("r1", "c").unwrap();
    c.begin_request("r2", "c").unwrap();
    c.begin_request("r3", "c").unwrap();
    let closed = c.reader_closed();
    assert_eq!(closed.rejected, vec!["r1".to_string(), "r2".to_string(), "r3".to_string()]);
    let e = closed.ui_error.unwrap();
    assert_eq!(e.code, "IPC_DISCONNECT");
    assert_eq!(e.severity, ErrorSeverity::Critical);
    assert!(!c.is_connected());
    assert_eq!(c.pending.len(), 0);
    let again = c.reader_closed();
    assert!(again.rejected.is_empty());
    assert!(again.ui_error.is_none());
}

#[test]
fn concurrent_starts_have_one_starter() {
    let mut c = CameraIpcClient::new();
    assert_eq!(c.begin_start(), StartStep::Proceed);
    assert_eq!(c.diagnostics.ipc_state, IpcConnectionState::Reconnecting);
    for _ in 0..5 {
        assert_eq!(c.begin_start(), StartStep::InProgress);
    }
    c.pipe_connected(42);
    assert_eq!(c.begin_start(), StartStep::AlreadyConnected);
    c.end_start();
    assert_eq!(c.begin_start(), StartStep::AlreadyConnected);
    assert_eq!(c.diagnostics.health.sidecar_connected_at, Some(42));
}

#[test]
fn stop_resets_health_and_reports_shutdown() {
    let mut c = connected_client();
    c.diagnostics.health.last_camera_detected_at = Some(5);
    c.begin_request("r", "c").unwrap();
    let out = c.stop_sidecar_for_restart();
    assert!(out.send_shutdown);
    assert_eq!(out.rejected, vec!["r".to_string()]);
    assert_eq!(c.diagnostics_snapshot().ipc_state, "reconnecting");
    assert_eq!(c.diagnostics.health.last_camera_detected_at, None);
    let out = c.stop_sidecar();
    assert!(!out.send_shutdown);
    assert_eq!(c.diagnostics_snapshot().ipc_state, "disconnected");
}

#[test]
fn failed_connect_is_recorded() {
    let mut c = CameraIpcClient::new();
    assert_eq!(c.begin_start(), StartStep::Proceed);
    c.pipe_connect_failed("no pipe".to_string(), true);
    c.end_start();
    let s = c.diagnostics_snapshot();
    assert_eq!(s.ipc_state, "disconnected");
    assert_eq!(s.last_error.as_deref(), Some("no pipe"));
    assert_eq!(s.protocol_version, "1.0.0");
}

#[test]
fn status_monitor_claimed_once() {
    let mut c = connected_client();
    assert!(c.claim_status_monitor());
    assert!(!c.claim_status_monitor());
    c.release_status_monitor();
    assert!(c.claim_status_monitor());
}

#[test]
fn unknown_events_are_not_forwarded() {
    assert_eq!(classify_event("event.camera.somethingElse"), SidecarEvent::Unknown);
    assert_eq!(host_event_name(SidecarEvent::Unknown), None);
    assert_eq!(classify_event("event.camera.statusHint"), SidecarEvent::StatusHint);
    assert_eq!(host_event_name(SidecarEvent::StatusChanged), Some("boothy-camera-status"));
    assert_eq!(host_event_name(SidecarEvent::CaptureStarted), Some("boothy-capture-started"));
}

#[test]
fn version_mismatch_is_refused() {
    let mut m = IpcMessage::new_event("e".to_string(), "c".to_string(), "{}".to_string());
    assert!(m.validate_version().is_ok());
    assert_eq!(m.protocol_version, IPC_PROTOCOL_VERSION);
    m.protocol_version = "2.0.0".to_string();
    let e = m.validate_version().unwrap_err();
    assert_eq!(e.code, IpcErrorCode::VersionMismatch);
    assert_eq!(e.message, "Protocol version mismatch: expected 1.0.0, got 2.0.0");
    let ctx = e.context.unwrap();
    assert_eq!(ctx[0], ("expected".to_string(), "1.0.0".to_string()));
    assert_eq!(ctx[1], ("actual".to_string(), "2.0.0".to_string()));
    assert_eq!(m.message_type, IpcMessageType::Event);
}

#[test]
fn frames_end_with_one_newline() {
    let f = frame_line("{\"a\":\"b\\nc\"}").unwrap();
    assert_eq!(f, "{\"a\":\"b\\nc\"}\n");
    assert_eq!(f.matches('\n').count(), 1);
    assert_eq!(frame_line("{\n}"), Err(FrameError::EmbeddedNewline));
    assert_eq!(frame_line("{\r}"), Err(FrameError::EmbeddedNewline));
    assert_eq!(frame_line("").unwrap(), "\n");
}

#[test]
fn error_codes_round_trip_on_the_wire() {
    assert_eq!(IpcErrorCode::from_wire("CAMERA_NOT_CONNECTED"), Some(IpcErrorCode::CameraNotConnected));
    assert_eq!(IpcErrorCode::from_wire("SESSION_DESTINATION_NOT_SET"), Some(IpcErrorCode::SessionDestinationNotSet));
    assert_eq!(IpcErrorCode::from_wire("camera_not_connected"), None);
    assert_eq!(IpcErrorCode::Timeout.wire_str(), "TIMEOUT");
    assert_eq!(IpcErrorCode::FileSystemError.tag_str(), "FileSystemError");
}

#[test]
fn diagnostic_message_includes_context() {
    let e = IpcError {
        code: IpcErrorCode::CaptureFailed,
        message: "busy".to_string(),
        context: Some(vec![("k".to_string(), "v \"q\"".to_string()), ("a".to_string(), "b".to_string())]),
    };
    assert_eq!(e.diagnostic_message(), "[CaptureFailed] busy | Context: {\"k\": \"v \\\"q\\\"\", \"a\": \"b\"}");
    assert_eq!(e.customer_safe_message(), "Photo capture failed. Please try again.");
    let h = BoothyError::from_ipc_error(e);
    assert_eq!(h.code, "CAPTURE_FAILED");
    assert_eq!(h.severity, ErrorSeverity::Error);
    assert_eq!(h.context.len(), 2);
}

#[test]
fn severity_mapping() {
    for (code, sev) in [
        (IpcErrorCode::VersionMismatch, ErrorSeverity::Critical),
        (IpcErrorCode::Disconnect, ErrorSeverity::Critical),
        (IpcErrorCode::CameraNotConnected, ErrorSeverity::Critical),
        (IpcErrorCode::CaptureFailed, ErrorSeverity::Error),
        (IpcErrorCode::FileTransferFailed, ErrorSeverity::Error),
        (IpcErrorCode::Unknown, ErrorSeverity::Error),
    ] {
        let e = IpcError { code, message: String::new(), context: None };
        assert_eq!(BoothyError::from_ipc_error(e).severity, sev);
    }
}

#[test]
fn test_customer_safe_message() {
    let error = camera::disconnect("EDSDK error code: 0x8001".to_string());
    assert_eq!(
        error.message_for_mode(false),
        "Camera disconnected. Please check the camera connection and try again."
    );
}

#[test]
fn test_admin_diagnostic_message() {
    let error = camera::disconnect("EDSDK error code: 0x8001".to_string());
    assert_eq!(error.message_for_mode(true), "EDSDK error code: 0x8001");
}

#[test]
fn test_error_with_context() {
    let error = import::failed("test.cr2", "Raw file header invalid".to_string())
        .with_context("correlationId", "abc-123".to_string());

    assert_eq!(error.context[0], ("filePath".to_string(), "test.cr2".to_string()));
    assert_eq!(error.context[1], ("correlationId".to_string(), "abc-123".to_string()));
    let error = error.with_context("filePath", "other.cr2".to_string());
    assert_eq!(error.context[0], ("filePath".to_string(), "other.cr2".to_string()));
    assert_eq!(error.context.len(), 2);
}

#[test]
fn test_correlation_id_generation() {
    let id1 = correlation::generate();
    let id2 = correlation::generate();
    assert_ne!(id1, id2);
    assert!(id1.starts_with("corr-"));
}

#[test]
fn request_and_correlation_ids_have_their_prefixes() {
    let r = generate_request_id();
    assert!(r.starts_with("req-"));
    assert_eq!(r.len(), 40);
    let c1 = generate_correlation_id();
    let c2 = generate_correlation_id();
    assert!(c1.starts_with("corr-"));
    assert_ne!(c1, c2);
}

#[test]
fn decimal_rendering() {
    assert_eq!(decimal_text(0), "0");
    assert_eq!(decimal_text(7), "7");
    assert_eq!(decimal_text(10), "10");
    assert_eq!(decimal_text(1234567), "1234567");
    assert_eq!(decimal_text(u64::MAX), "18446744073709551615");
}

#[test]
fn correlation_id_carries_time() {
    let id = generate_correlation_id();
    let parts: Vec<&str> = id.splitn(3, '-').collect();
    assert_eq!(parts[0], "corr");
    assert!(parts[1].parse::<u64>().unwrap() > 1_600_000_000_000);
    assert_eq!(parts[2].len(), 36);
}

use boothy_core::export::{
    build_photo_state_map, filter_export_paths, BoothyExportChoice, BoothySessionMetadata as ExportMetadata,
    BoothySessionPhoto, ExportProgressState, ExportProgressStatus,
};
use boothy_core::metadata::{
    background_export_error, default_schema_version, is_background_export_completed,
    mark_background_export_failure, mark_background_export_success, record_background_export_attempt,
    BoothySessionMetadata, SessionExportError,
};
use boothy_core::mode::{BoothyMode, ModeManager};
use boothy_core::session::{sanitize_session_name, validate_session_name};
use boothy_core::storage_health::{
    build_payload, classify_storage_status, status_from_sample, storage_transition, DiskSpaceSample,
    StorageHealthPayload, StorageHealthSettings, StorageHealthState, StorageHealthStatus, StorageTransition,
};

#[test]
fn test_default_mode_is_customer() {
    let manager = ModeManager::new();
    assert_eq!(manager.get_mode(), BoothyMode::Customer);
    assert!(!manager.is_admin());
}

#[test]
fn test_password_authentication() {
    let mut manager = ModeManager::new();
    manager.set_admin_password("test123").unwrap();

    // Correct password
    assert!(manager.authenticate("test123").unwrap());
    assert!(manager.is_admin());

    // Switch back to customer
    manager.switch_to_customer_mode();
    assert!(!manager.is_admin());

    // Wrong password
    assert!(!manager.authenticate("wrong").unwrap());
    assert!(!manager.is_admin());
}

#[test]
fn test_password_hashing() {
    let mut manager = ModeManager::new();
    manager.set_admin_password("mypassword").unwrap();

    // Password hash should not be stored in plaintext
    let hash = manager.get_password_hash();
    assert!(hash.is_some());
    assert!(!hash.as_ref().unwrap().contains("mypassword"));
    assert!(hash.as_ref().unwrap().starts_with("$argon2"));
    assert!(manager.has_admin_password());
}

#[test]
fn authenticate_without_password_or_with_bad_hash() {
    let mut manager = ModeManager::new();
    assert_eq!(manager.authenticate("x"), Ok(false));
    manager.load_password_hash("not a hash".to_string());
    assert!(manager.authenticate("x").is_err());
    assert_eq!(manager.get_mode(), BoothyMode::Customer);
    assert_eq!(BoothyMode::default(), BoothyMode::Customer);
}

#[test]
fn validate_session_name_allows_single_component() {
    assert!(validate_session_name("Session-1").is_ok());
}

#[test]
fn validate_session_name_rejects_nested_paths() {
    assert!(validate_session_name("Session-1/Sub").is_err());
    assert!(validate_session_name("Session-1\\Sub").is_err());
}

#[test]
fn validate_session_name_rejects_parent_dir() {
    assert!(validate_session_name("../Session").is_err());
    assert!(validate_session_name("..").is_err());
}

#[test]
fn validate_session_name_messages() {
    assert_eq!(validate_session_name("   ").unwrap_err(), "Session name is empty");
    assert_eq!(validate_session_name("/abs").unwrap_err(), "Absolute paths are not allowed");
    assert_eq!(validate_session_name("C:\\x").unwrap_err(), "Absolute paths are not allowed");
    assert_eq!(validate_session_name(".").unwrap_err(), "Invalid session name");
    assert_eq!(validate_session_name("a/b").unwrap_err(), "Nested paths are not allowed");
    assert!(validate_session_name("  Name/  ").is_ok());
}

#[test]
fn test_sanitize_normal() {
    assert_eq!(sanitize_session_name("Test Session").unwrap(), "Test-Session");
}

#[test]
fn test_sanitize_special_chars() {
    assert_eq!(sanitize_session_name("Test@Session#123").unwrap(), "Test-Session-123");
}

#[test]
fn test_sanitize_repeated_dashes() {
    assert_eq!(sanitize_session_name("Test   Session").unwrap(), "Test-Session");
}

#[test]
fn test_sanitize_trim_dashes() {
    assert_eq!(sanitize_session_name("---Test---").unwrap(), "Test");
}

#[test]
fn test_sanitize_empty_after_trim() {
    assert!(sanitize_session_name("   ").is_err());
}

#[test]
fn test_sanitize_only_special_chars() {
    assert!(sanitize_session_name("@#$%").is_err());
}

#[test]
fn sanitize_messages() {
    assert_eq!(sanitize_session_name(" \t ").unwrap_err(), "Session name cannot be empty");
    assert_eq!(
        sanitize_session_name("@#$%").unwrap_err(),
        "Session name resulted in empty folder name after sanitization"
    );
    assert_eq!(sanitize_session_name("  a__b--c  ").unwrap(), "a__b-c");
    assert_eq!(sanitize_session_name("Café 2").unwrap(), "Caf-2");
}

fn failure() -> SessionExportError {
    SessionExportError::new(
        "EXPORT_FAILED".to_string(),
        "Failed to export image.".to_string(),
        vec![("destination".to_string(), "Jpg/IMG_0001.jpg".to_string())],
    )
}

#[test]
fn metadata_round_trip_records_failure_details() {
    let mut metadata = BoothySessionMetadata::new();
    record_background_export_attempt(&mut metadata, "IMG_0001.CR3".to_string(), "t1".to_string());
    mark_background_export_failure(&mut metadata, "IMG_0001.CR3".to_string(), failure(), "t2".to_string());
    let entry = metadata
        .photos
        .iter()
        .find(|photo| photo.raw_filename == "IMG_0001.CR3")
        .expect("photo entry should exist");
    assert_eq!(entry.attempt_count, 1);
    assert!(entry.last_error.is_some());
    assert!(!entry.background_export_completed);
    assert_eq!(entry.last_attempt_at.as_deref(), Some("t1"));
}

#[test]
fn success_after_failures_clears_error() {
    let mut metadata = BoothySessionMetadata::new();
    assert_eq!(metadata.schema_version, default_schema_version());
    for i in 0..3 {
        record_background_export_attempt(&mut metadata, "A.CR3".to_string(), format!("t{}", i));
        mark_background_export_failure(&mut metadata, "A.CR3".to_string(), failure(), format!("t{}", i));
    }
    assert!(!is_background_export_completed(&metadata, "A.CR3"));
    mark_background_export_success(&mut metadata, "A.CR3".to_string(), "done".to_string());
    assert_eq!(metadata.photos.len(), 1);
    let e = &metadata.photos[0];
    assert!(e.background_export_completed);
    assert!(e.last_error.is_none());
    assert_eq!(e.attempt_count, 3);
    assert_eq!(e.background_export_timestamp.as_deref(), Some("done"));
    assert!(is_background_export_completed(&metadata, "A.CR3"));
    assert!(!is_background_export_completed(&metadata, "B.CR3"));
}

#[test]
fn success_without_attempt_counts_one() {
    let mut metadata = BoothySessionMetadata::new();
    mark_background_export_success(&mut metadata, "B.CR3".to_string(), "now".to_string());
    assert_eq!(metadata.photos[0].attempt_count, 1);
    assert_eq!(metadata.photos[0].last_attempt_at.as_deref(), Some("now"));
}

#[test]
fn export_error_kinds() {
    let e = background_export_error("BACKGROUND_EXPORT_CANCELLED", "Jpg/a.jpg", "corr-1");
    assert_eq!(e.code, "BACKGROUND_EXPORT_CANCELLED");
    assert_eq!(e.message, "Background export cancelled.");
    assert_eq!(e.context, vec![("correlationId".to_string(), "corr-1".to_string())]);
    let e = background_export_error("disk", "Jpg/a.jpg", "corr-1");
    assert_eq!(e.code, "EXPORT_FAILED");
    assert_eq!(e.message, "Failed to export image. Please try again or choose a different location.");
    assert_eq!(e.context.len(), 3);
}

fn photo(name: &str, done: Option<bool>) -> BoothySessionPhoto {
    BoothySessionPhoto { raw_filename: name.to_string(), background_export_completed: done, correlation_id: None }
}

#[test]
fn filter_continue_exports_only_incomplete_files() {
    let paths = vec!["A.CR3".to_string(), "B.CR3".to_string(), "C.CR3".to_string()];
    let metadata = ExportMetadata {
        schema_version: None,
        photos: vec![photo("A.CR3", Some(true)), photo("B.CR3", Some(false))],
    };
    let states = build_photo_state_map(&metadata);
    let selected = filter_export_paths(paths, Some(&states), BoothyExportChoice::ContinueFromBackground);
    assert_eq!(selected, vec!["B.CR3".to_string(), "C.CR3".to_string()]);
}

#[test]
fn filter_overwrite_exports_all_files() {
    let paths = vec!["A.CR3".to_string(), "B.CR3".to_string()];
    let selected = filter_export_paths(paths.clone(), None, BoothyExportChoice::OverwriteAll);
    assert_eq!(selected, paths);
}

#[test]
fn photo_state_map_skips_blank_names_and_later_entries_win() {
    let metadata = ExportMetadata {
        schema_version: Some(1),
        photos: vec![photo("  ", Some(true)), photo("A.CR3", Some(true)), photo("A.CR3", None)],
    };
    let states = build_photo_state_map(&metadata);
    assert_eq!(states.entries.len(), 2);
    assert!(!states.is_completed("A.CR3"));
    let selected = filter_export_paths(
        vec!["C:/s/Raw/A.CR3".to_string()],
        Some(&states),
        BoothyExportChoice::ContinueFromBackground,
    );
    assert_eq!(selected.len(), 1);
}

#[test]
fn export_progress_state_transitions() {
    let mut state = ExportProgressState::new(3);
    assert_eq!(state.status, ExportProgressStatus::Idle);

    state.advance(1, "A.CR3".to_string());
    assert_eq!(state.status, ExportProgressStatus::Exporting);
    assert_eq!(state.completed, 1);
    assert_eq!(state.current_path, "A.CR3");

    state.mark_error();
    assert_eq!(state.status, ExportProgressStatus::Error);

    state.mark_complete();
    assert_eq!(state.status, ExportProgressStatus::Error);
    assert_eq!(state.completed, 3);
    assert_eq!(state.current_path, "");
}

#[test]
fn classify_storage_status_thresholds() {
    let warning = 10;
    let critical = 5;
    assert_eq!(classify_storage_status(11, warning, critical), StorageHealthStatus::Healthy);
    assert_eq!(classify_storage_status(10, warning, critical), StorageHealthStatus::Warning);
    assert_eq!(classify_storage_status(5, warning, critical), StorageHealthStatus::Critical);
}

#[test]
fn status_from_sample_handles_unknown() {
    let settings = StorageHealthSettings {
        enabled: true,
        warning_threshold_bytes: 10,
        critical_threshold_bytes: 5,
        poll_interval_seconds: 10,
    };
    assert_eq!(status_from_sample(None, &settings), StorageHealthStatus::Unknown);
    let s = DiskSpaceSample { free_bytes: 7, total_bytes: 100 };
    assert_eq!(status_from_sample(Some(&s), &settings), StorageHealthStatus::Warning);
}

#[test]
fn storage_settings_and_payloads() {
    let defaults = StorageHealthSettings {
        enabled: true,
        warning_threshold_bytes: 100,
        critical_threshold_bytes: 50,
        poll_interval_seconds: 30,
    };
    let s = StorageHealthSettings::from_settings(None, Some(0), Some(200), None, &defaults);
    assert!(s.enabled);
    assert_eq!(s.critical_threshold_bytes, 200);
    assert_eq!(s.warning_threshold_bytes, 200);
    assert_eq!(s.poll_interval_seconds, 30);

    let p = build_payload(&s, Ok(DiskSpaceSample { free_bytes: 150, total_bytes: 1000 }), "t".to_string());
    assert_eq!(p.status, StorageHealthStatus::Critical);
    let off = StorageHealthSettings { enabled: false, ..s };
    let p = build_payload(&off, Err("x".to_string()), "t".to_string());
    assert_eq!(p.diagnostic.as_deref(), Some("storage health disabled"));
    let p = build_payload(&s, Err("no disk".to_string()), "t".to_string());
    assert_eq!(p.status, StorageHealthStatus::Unknown);
    assert_eq!(p.diagnostic.as_deref(), Some("no disk"));

    let mut state = StorageHealthState::new(StorageHealthPayload::unknown_with_thresholds(10, 5, None, "t".to_string()));
    assert!(!state.is_critical());
    let mut crit = StorageHealthPayload::unknown_with_thresholds(10, 5, None, "t".to_string());
    crit.status = StorageHealthStatus::Critical;
    assert_eq!(state.update_latest_payload(crit), StorageHealthStatus::Unknown);
    assert!(state.is_critical());
    assert_eq!(storage_transition(StorageHealthStatus::Healthy, StorageHealthStatus::Critical), StorageTransition::EnterLockout);
    assert_eq!(storage_transition(StorageHealthStatus::Critical, StorageHealthStatus::Warning), StorageTransition::LeaveLockout);
    assert_eq!(storage_transition(StorageHealthStatus::Warning, StorageHealthStatus::Warning), StorageTransition::Unchanged);
    assert_eq!(storage_transition(StorageHealthStatus::Healthy, StorageHealthStatus::Warning), StorageTransition::Other);
}

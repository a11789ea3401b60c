use boothy_core::export_queue::{
    decide_job, is_path_within, select_catch_up, BackgroundExportQueue, CatchUpCandidate, JobDecision,
};
use boothy_core::paths::{file_name, is_image_file, jpg_file_name, raw_filename, rrdata_path};
use boothy_core::preset::{merge_preset_adjustments, PresetManager};
use boothy_core::stabilizer::{
    import_error_message, FileArrivalWatcherInner, FileProbe, IngestAction, StabilityStep,
    StabilityTracker, StabilizationConfig, StabilizationResult,
};

fn entries(pairs: &[(&str, &str)]) -> Vec<(String, String)> {
    pairs.iter().map(|(k, v)| (k.to_string(), v.to_string())).collect()
}

fn settled(size: u64) -> FileProbe {
    FileProbe::Present { size, age_ms: Some(10_000) }
}

#[test]
fn test_stable_file() {
    let config = StabilizationConfig {
        poll_interval_ms: 100,
        stable_count_required: 3,
        max_wait_ms: 5000,
        min_age_ms: 500,
    };
    let mut t = StabilityTracker::new("test.raw".to_string());
    let mut elapsed = 600;
    let mut step = t.observe(&config, elapsed, settled(9));
    for _ in 0..3 {
        assert!(matches!(step, StabilityStep::Sleep));
        elapsed += 100;
        step = t.observe(&config, elapsed, settled(9));
    }
    assert!(matches!(step, StabilityStep::TryOpen));
    match t.open_result(true) {
        StabilityStep::Done(StabilizationResult::Stable { path, size }) => {
            assert_eq!(path, "test.raw");
            assert_eq!(size, 9);
        }
        other => panic!("Expected Stable result, got {:?}", other),
    }
}

#[test]
fn test_nonexistent_file() {
    let config = StabilizationConfig::default();
    let mut t = StabilityTracker::new("nonexistent_file.raw".to_string());
    match t.observe(&config, 0, FileProbe::Missing) {
        StabilityStep::Done(StabilizationResult::NotFound { path }) => assert_eq!(path, "nonexistent_file.raw"),
        other => panic!("Expected NotFound result, got {:?}", other),
    }
}

#[test]
fn stabilizer_defaults() {
    let c = StabilizationConfig::default();
    assert_eq!(c.poll_interval_ms, 200);
    assert_eq!(c.stable_count_required, 3);
    assert_eq!(c.max_wait_ms, 10_000);
    assert_eq!(c.min_age_ms, 500);
}

#[test]
fn stabilizer_waits_for_age_and_resets_on_growth() {
    let config = StabilizationConfig::default();
    let mut t = StabilityTracker::new("a.CR3".to_string());
    let young = FileProbe::Present { size: 5, age_ms: Some(100) };
    assert!(matches!(t.observe(&config, 0, young), StabilityStep::Sleep));
    assert_eq!(t.last_size, None);
    assert!(matches!(t.observe(&config, 200, settled(5)), StabilityStep::Sleep));
    assert!(matches!(t.observe(&config, 400, settled(5)), StabilityStep::Sleep));
    assert_eq!(t.stable_checks, 1);
    assert!(matches!(t.observe(&config, 600, settled(6)), StabilityStep::Sleep));
    assert_eq!(t.stable_checks, 0);
    assert!(matches!(t.observe(&config, 800, FileProbe::MetadataUnavailable), StabilityStep::Sleep));
    assert_eq!(t.last_size, Some(6));
}

#[test]
fn stabilizer_reports_locked_after_failed_open_and_timeout() {
    let config = StabilizationConfig { poll_interval_ms: 10, stable_count_required: 1, max_wait_ms: 1000, min_age_ms: 0 };
    let mut t = StabilityTracker::new("x.NEF".to_string());
    assert!(matches!(t.observe(&config, 0, settled(3)), StabilityStep::Sleep));
    assert!(matches!(t.observe(&config, 10, settled(3)), StabilityStep::TryOpen));
    assert!(matches!(t.open_result(false), StabilityStep::Sleep));
    assert!(t.locked_detected);
    assert_eq!(t.stable_checks, 0);
    match t.observe(&config, 1000, settled(3)) {
        StabilityStep::Done(StabilizationResult::Locked { path }) => assert_eq!(path, "x.NEF"),
        other => panic!("Expected Locked, got {:?}", other),
    }
    let mut u = StabilityTracker::new("y.NEF".to_string());
    match u.observe(&config, 1000, settled(3)) {
        StabilityStep::Done(StabilizationResult::Timeout { path }) => assert_eq!(path, "y.NEF"),
        other => panic!("Expected Timeout, got {:?}", other),
    }
}

#[test]
fn pending_imports_cleared_on_every_exit() {
    let mut w = FileArrivalWatcherInner::new();
    let results = vec![
        StabilizationResult::Stable { path: "p".to_string(), size: 2048 },
        StabilizationResult::Timeout { path: "p".to_string() },
        StabilizationResult::NotFound { path: "p".to_string() },
        StabilizationResult::Locked { path: "p".to_string() },
    ];
    let expected = [
        IngestAction::Import { size: 2048 },
        IngestAction::TimeoutError,
        IngestAction::WarnNotFound,
        IngestAction::LockedError,
    ];
    for (r, e) in results.iter().zip(expected.iter()) {
        assert!(w.handle_photo_transferred("p"));
        assert!(!w.handle_photo_transferred("p"));
        assert_eq!(w.get_pending_imports(), vec!["p".to_string()]);
        assert_eq!(w.finish_stabilization("p", r), *e);
        assert!(w.get_pending_imports().is_empty());
    }
    assert_eq!(import_error_message(IngestAction::TimeoutError), Some("File stabilization timeout"));
    assert_eq!(import_error_message(IngestAction::LockedError), Some("File is locked"));
    assert_eq!(import_error_message(IngestAction::WarnNotFound), None);
}

#[test]
fn queue_processes_one_job_at_a_time() {
    let mut q = BackgroundExportQueue::new();
    assert!(q.enqueue("C:/tmp/shot1.CR3".to_string(), "corr-1".to_string(), "t1".to_string()));
    assert!(q.enqueue("C:/tmp/shot2.CR3".to_string(), "corr-2".to_string(), "t2".to_string()));
    let job = q.next_job().unwrap();
    assert_eq!(job.path, "C:/tmp/shot1.CR3");
    assert!(q.next_job().is_none());
    assert!(!q.is_idle());
    q.finish_job();
    let job = q.next_job().unwrap();
    assert_eq!(job.path, "C:/tmp/shot2.CR3");
    assert_eq!(job.correlation_id, "corr-2");
    q.finish_job();
    assert!(q.is_idle());
    assert_eq!(q.pending_keys.len(), 0);
}

#[test]
fn queue_dedupes_same_path() {
    let mut q = BackgroundExportQueue::new();
    assert!(q.enqueue("C:/tmp/shot1.CR3".to_string(), "corr-1".to_string(), "t".to_string()));
    assert!(!q.enqueue("C:/tmp/shot1.CR3".to_string(), "corr-1".to_string(), "t".to_string()));
    let _ = q.next_job().unwrap();
    assert!(!q.enqueue("C:/tmp/shot1.CR3".to_string(), "corr-1".to_string(), "t".to_string()));
    q.finish_job();
    assert!(q.next_job().is_none());
    assert!(q.enqueue("C:/tmp/shot1.CR3".to_string(), "corr-1".to_string(), "t".to_string()));
}

#[test]
fn queue_cancel_signal_reaches_processor() {
    let mut q = BackgroundExportQueue::new();
    q.enqueue("C:/tmp/shot3.CR3".to_string(), "corr-3".to_string(), "t".to_string());
    let _ = q.next_job().unwrap();
    q.pause_and_cancel();
    assert!(q.cancel_requested);
    assert!(!q.is_idle());
    q.finish_job();
    assert!(!q.cancel_requested);
    assert!(q.is_idle());
}

#[test]
fn paused_queue_holds_jobs_until_resume() {
    let mut q = BackgroundExportQueue::new();
    q.pause();
    q.enqueue("a".to_string(), "c".to_string(), "t".to_string());
    assert!(q.next_job().is_none());
    assert!(q.is_idle());
    q.resume();
    assert_eq!(q.next_job().unwrap().path, "a");
}

#[test]
fn job_decisions() {
    let raw = Some("C:/s/Raw");
    assert_eq!(decide_job(None, "C:/s/Raw/a.CR3", false, false), JobDecision::SkipNoSession);
    assert_eq!(decide_job(raw, "C:/s/RawX/a.CR3", false, false), JobDecision::SkipOutsideSession);
    assert_eq!(decide_job(raw, "C:/s/Raw/a.CR3", true, false), JobDecision::SkipCompleted);
    assert_eq!(decide_job(raw, "C:/s/Raw/a.CR3", false, true), JobDecision::SkipCancelled);
    assert_eq!(decide_job(raw, "C:/s/Raw/a.CR3", false, false), JobDecision::Export);
    assert!(is_path_within("C:\\s\\Raw\\a.CR3", "C:\\s\\Raw"));
    assert!(is_path_within("C:/s/Raw/", "C:/s/Raw/"));
    assert!(!is_path_within("C:/s", "C:/s/Raw"));
}

#[test]
fn catch_up_selects_preset_files_not_exported() {
    let c = |p: &str, is_dir, is_raw, has, done| CatchUpCandidate {
        path: p.to_string(),
        is_dir,
        is_raw,
        has_preset_document: has,
        completed: done,
    };
    let list = vec![
        c("a.CR3", false, true, true, false),
        c("b.CR3", false, true, false, false),
        c("c.CR3", false, true, true, true),
        c("d.jpg", false, false, true, false),
        c("sub", true, true, true, false),
        c("e.CR3", false, true, true, false),
    ];
    let (paths, skipped) = select_catch_up(&list);
    assert_eq!(paths, vec!["a.CR3".to_string(), "e.CR3".to_string()]);
    assert_eq!(skipped, 2);
}

#[test]
fn path_helpers() {
    assert_eq!(file_name("C:/s/IMG_0001.CR3").as_deref(), Some("IMG_0001.CR3"));
    assert_eq!(file_name("C:\\shots\\IMG_0001.CR3").as_deref(), Some("IMG_0001.CR3"));
    assert_eq!(file_name("dir/sub/").as_deref(), Some("sub"));
    assert_eq!(file_name("dir/.."), None);
    assert_eq!(file_name(""), None);
    assert_eq!(raw_filename("a/b/IMG.CR3").unwrap(), "IMG.CR3");
    assert_eq!(raw_filename("/").unwrap_err(), "Raw file name missing");
    assert_eq!(rrdata_path("C:/s/shot.CR3"), "C:/s/shot.CR3.rrdata");
    assert_eq!(jpg_file_name("IMG_0001.CR3"), "IMG_0001.jpg");
    assert_eq!(jpg_file_name("a.b.NEF"), "a.b.jpg");
    assert_eq!(jpg_file_name(".hidden"), ".hidden.jpg");
    assert_eq!(jpg_file_name("noext"), "noext.jpg");
}

#[test]
fn image_whitelist() {
    assert!(is_image_file("C:/s/IMG_0001.CR3"));
    assert!(is_image_file("x/y.jpeg"));
    assert!(is_image_file("x/y.Rw2"));
    assert!(!is_image_file("x/y.txt"));
    assert!(!is_image_file("x/.cr3"));
    assert!(!is_image_file("x/cr3"));
    assert!(!is_image_file("x/y.CR3.rrdata"));
}

#[test]
fn test_set_and_get_preset() {
    let mut manager = PresetManager::new();
    assert!(manager.get_current_preset().is_none());
    let adjustments = entries(&[("exposure", "0.5"), ("contrast", "1.2")]);
    manager.set_current_preset(
        "preset-123".to_string(),
        Some("My Preset".to_string()),
        adjustments.clone(),
        "2026-01-01T00:00:00Z".to_string(),
    );
    let preset = manager.get_current_preset().unwrap();
    assert_eq!(preset.preset_id, "preset-123");
    assert_eq!(preset.preset_name, Some("My Preset".to_string()));
    assert_eq!(preset.adjustments, adjustments);
    manager.clear_current_preset();
    assert!(manager.get_current_preset().is_none());
}

#[test]
fn test_apply_preset_on_import() {
    let mut manager = PresetManager::new();
    manager.set_current_preset(
        "preset-123".to_string(),
        Some("Test Preset".to_string()),
        entries(&[("exposure", "0.5"), ("contrast", "1.2")]),
        "t".to_string(),
    );
    let mut doc: Vec<(String, String)> = Vec::new();
    let applied = "{\"preset_id\":\"preset-123\",\"preset_name\":\"Test Preset\"}".to_string();
    assert!(manager.apply_preset_on_import(&mut doc, applied.clone()));
    assert_eq!(
        doc,
        entries(&[("boothy", &applied), ("exposure", "0.5"), ("contrast", "1.2")])
    );
}

#[test]
fn preset_merge_keeps_other_keys_and_reserved_entry() {
    let mut doc = entries(&[("tint", "3"), ("exposure", "0.1"), ("boothy", "old")]);
    let preset = entries(&[("exposure", "0.2"), ("boothy", "hijack"), ("vignette", "1")]);
    merge_preset_adjustments(&mut doc, &preset, "new".to_string());
    assert_eq!(
        doc,
        entries(&[("tint", "3"), ("exposure", "0.2"), ("boothy", "new"), ("vignette", "1")])
    );
    let once = doc.clone();
    merge_preset_adjustments(&mut doc, &preset, "new".to_string());
    assert_eq!(doc, once);
}

#[test]
fn no_preset_leaves_document_alone() {
    let manager = PresetManager::new();
    let mut doc = entries(&[("a", "1")]);
    assert!(!manager.apply_preset_on_import(&mut doc, "x".to_string()));
    assert_eq!(doc, entries(&[("a", "1")]));
}

use boothy_core::cleanup::{combine_diagnostics, delete_step, CleanupDeleteSummary, DeleteStep};

#[test]
fn delete_steps_skip_active_and_invalid_names() {
    assert_eq!(delete_step(Some("Active"), "Active"), DeleteStep::SkipActive);
    assert_eq!(delete_step(Some("Active"), "Old"), DeleteStep::Delete);
    assert_eq!(delete_step(None, ".."), DeleteStep::SkipInvalid);
    assert_eq!(delete_step(None, "a/b"), DeleteStep::SkipInvalid);
}

#[test]
fn delete_summary_records_outcomes() {
    let mut summary = CleanupDeleteSummary::new();
    for name in ["Active", "Old", "../x", "Broken"] {
        let step = delete_step(Some("Active"), name);
        let deletion = if name == "Broken" { Err("denied".to_string()) } else { Ok(()) };
        summary.record(name.to_string(), step, deletion);
    }
    assert_eq!(summary.skipped_active, vec!["Active".to_string()]);
    assert_eq!(summary.deleted, vec!["Old".to_string()]);
    assert_eq!(summary.skipped_invalid, vec!["../x".to_string()]);
    assert_eq!(summary.failed.len(), 1);
    assert_eq!(summary.failed[0].name, "Broken");
    assert_eq!(summary.failed[0].diagnostic, "denied");
}

#[test]
fn diagnostics_are_joined() {
    assert_eq!(combine_diagnostics(Some("a".to_string()), Some("b".to_string())).as_deref(), Some("a; b"));
    assert_eq!(combine_diagnostics(None, Some("b".to_string())).as_deref(), Some("b"));
    assert_eq!(combine_diagnostics(None, None), None);
}

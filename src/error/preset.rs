//! Preset error codes and their host errors.

use vstd::prelude::*;
use crate::entries::{entries_view, upsert};
use crate::error::{BoothyError, ErrorSeverity};
use crate::strings::owned;

verus! {

pub const PRESET_NOT_FOUND: &'static str = "PRESET_NOT_FOUND";
pub const PRESET_APPLY_FAILED: &'static str = "PRESET_APPLY_FAILED";

pub fn not_found(preset_id: &str) -> (r: BoothyError)
    ensures
        r.code@ == "PRESET_NOT_FOUND"@,
        r.message@ == "Selected preset not found. Please choose another preset."@,
        r.diagnostic is None,
        entries_view(r.context@) == seq![("presetId"@, preset_id@)],
        r.severity == ErrorSeverity::Error,
{
    let e = BoothyError::new(owned(PRESET_NOT_FOUND), owned("Selected preset not found. Please choose another preset."));
    assert(entries_view(e.context@) =~= Seq::empty());
    let e = e.with_context("presetId", owned(preset_id));
    assert(upsert(Seq::empty(), "presetId"@, preset_id@) =~= seq![("presetId"@, preset_id@)]);
    e.with_severity(ErrorSeverity::Error)
}

pub fn apply_failed(preset_id: &str, diagnostic: String) -> (r: BoothyError)
    ensures
        r.code@ == "PRESET_APPLY_FAILED"@,
        r.message@ == "Failed to apply preset. Please try again."@,
        r.diagnostic == Some(diagnostic),
        entries_view(r.context@) == seq![("presetId"@, preset_id@)],
        r.severity == ErrorSeverity::Error,
{
    let e = BoothyError::with_diagnostic(owned(PRESET_APPLY_FAILED), owned("Failed to apply preset. Please try again."), diagnostic);
    assert(entries_view(e.context@) =~= Seq::empty());
    let e = e.with_context("presetId", owned(preset_id));
    assert(upsert(Seq::empty(), "presetId"@, preset_id@) =~= seq![("presetId"@, preset_id@)]);
    e.with_severity(ErrorSeverity::Error)
}

} // verus!

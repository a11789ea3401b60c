//! Export error codes and their host errors.

use vstd::prelude::*;
use crate::entries::{entries_view, upsert};
use crate::error::{BoothyError, ErrorSeverity};
use crate::strings::owned;

verus! {

pub const EXPORT_FAILED: &'static str = "EXPORT_FAILED";
pub const DISK_FULL: &'static str = "DISK_FULL";

pub fn failed(destination: &str, diagnostic: String) -> (r: BoothyError)
    ensures
        r.code@ == "EXPORT_FAILED"@,
        r.message@ == "Failed to export image. Please try again or choose a different location."@,
        r.diagnostic == Some(diagnostic),
        entries_view(r.context@) == seq![("destination"@, destination@)],
        r.severity == ErrorSeverity::Error,
{
    let e = BoothyError::with_diagnostic(owned(EXPORT_FAILED), owned("Failed to export image. Please try again or choose a different location."), diagnostic);
    assert(entries_view(e.context@) =~= Seq::empty());
    let e = e.with_context("destination", owned(destination));
    assert(upsert(Seq::empty(), "destination"@, destination@) =~= seq![("destination"@, destination@)]);
    e.with_severity(ErrorSeverity::Error)
}

pub fn disk_full(destination: &str) -> (r: BoothyError)
    ensures
        r.code@ == "DISK_FULL"@,
        r.message@ == "Not enough disk space. Please free up space and try again."@,
        r.diagnostic is None,
        entries_view(r.context@) == seq![("destination"@, destination@)],
        r.severity == ErrorSeverity::Error,
{
    let e = BoothyError::new(owned(DISK_FULL), owned("Not enough disk space. Please free up space and try again."));
    assert(entries_view(e.context@) =~= Seq::empty());
    let e = e.with_context("destination", owned(destination));
    assert(upsert(Seq::empty(), "destination"@, destination@) =~= seq![("destination"@, destination@)]);
    e.with_severity(ErrorSeverity::Error)
}

} // verus!

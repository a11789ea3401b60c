//! Import error codes and their host errors.

use vstd::prelude::*;
use crate::entries::{entries_view, upsert};
use crate::error::{BoothyError, ErrorSeverity};
use crate::strings::owned;

verus! {

pub const IMPORT_FAILED: &'static str = "IMPORT_FAILED";
pub const FILE_NOT_STABLE: &'static str = "FILE_NOT_STABLE";
pub const UNSUPPORTED_FORMAT: &'static str = "UNSUPPORTED_FORMAT";

pub fn failed(file_path: &str, diagnostic: String) -> (r: BoothyError)
    ensures
        r.code@ == "IMPORT_FAILED"@,
        r.message@ == "Failed to import photo. The file may be corrupted."@,
        r.diagnostic == Some(diagnostic),
        entries_view(r.context@) == seq![("filePath"@, file_path@)],
        r.severity == ErrorSeverity::Error,
{
    let e = BoothyError::with_diagnostic(
        owned(IMPORT_FAILED),
        owned("Failed to import photo. The file may be corrupted."),
        diagnostic,
    );
    assert(entries_view(e.context@) =~= Seq::empty());
    let e = e.with_context("filePath", owned(file_path));
    assert(upsert(Seq::empty(), "filePath"@, file_path@) =~= seq![("filePath"@, file_path@)]);
    e.with_severity(ErrorSeverity::Error)
}

pub fn unsupported_format(file_path: &str) -> (r: BoothyError)
    ensures
        r.code@ == "UNSUPPORTED_FORMAT"@,
        r.message@ == "Unsupported file format. Only RAW and JPEG files are supported."@,
        r.diagnostic is None,
        entries_view(r.context@) == seq![("filePath"@, file_path@)],
        r.severity == ErrorSeverity::Warning,
{
    let e = BoothyError::new(
        owned(UNSUPPORTED_FORMAT),
        owned("Unsupported file format. Only RAW and JPEG files are supported."),
    );
    assert(entries_view(e.context@) =~= Seq::empty());
    let e = e.with_context("filePath", owned(file_path));
    assert(upsert(Seq::empty(), "filePath"@, file_path@) =~= seq![("filePath"@, file_path@)]);
    e.with_severity(ErrorSeverity::Warning)
}

} // verus!

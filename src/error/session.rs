//! Session error codes and their host errors.

use vstd::prelude::*;
use crate::entries::{entries_view, upsert};
use crate::error::{BoothyError, ErrorSeverity};
use crate::strings::owned;

verus! {

pub const SESSION_CREATE_FAILED: &'static str = "SESSION_CREATE_FAILED";
pub const SESSION_NOT_FOUND: &'static str = "SESSION_NOT_FOUND";

pub fn create_failed(session_name: &str, diagnostic: String) -> (r: BoothyError)
    ensures
        r.code@ == "SESSION_CREATE_FAILED"@,
        r.message@ == "Failed to create session. Please try a different name."@,
        r.diagnostic == Some(diagnostic),
        entries_view(r.context@) == seq![("sessionName"@, session_name@)],
        r.severity == ErrorSeverity::Error,
{
    let e = BoothyError::with_diagnostic(owned(SESSION_CREATE_FAILED), owned("Failed to create session. Please try a different name."), diagnostic);
    assert(entries_view(e.context@) =~= Seq::empty());
    let e = e.with_context("sessionName", owned(session_name));
    assert(upsert(Seq::empty(), "sessionName"@, session_name@) =~= seq![("sessionName"@, session_name@)]);
    e.with_severity(ErrorSeverity::Error)
}

pub fn not_found(session_name: &str) -> (r: BoothyError)
    ensures
        r.code@ == "SESSION_NOT_FOUND"@,
        r.message@ == "Session not found."@,
        r.diagnostic is None,
        entries_view(r.context@) == seq![("sessionName"@, session_name@)],
        r.severity == ErrorSeverity::Error,
{
    let e = BoothyError::new(owned(SESSION_NOT_FOUND), owned("Session not found."));
    assert(entries_view(e.context@) =~= Seq::empty());
    let e = e.with_context("sessionName", owned(session_name));
    assert(upsert(Seq::empty(), "sessionName"@, session_name@) =~= seq![("sessionName"@, session_name@)]);
    e.with_severity(ErrorSeverity::Error)
}

} // verus!

//! Errors of the sidecar link and their host errors.

use vstd::prelude::*;
use crate::error::{BoothyError, ErrorSeverity};
use crate::strings::owned;

verus! {

pub const IPC_TIMEOUT: &'static str = "IPC_TIMEOUT";
pub const IPC_DISCONNECT: &'static str = "IPC_DISCONNECT";
pub const SIDECAR_CRASH: &'static str = "SIDECAR_CRASH";
pub const SIDECAR_START_FAILED: &'static str = "SIDECAR_START_FAILED";

/// The sidecar did not answer `operation` in time.
pub fn timeout(operation: &str) -> (r: BoothyError)
    ensures
        r.code@ == "IPC_TIMEOUT"@,
        r.message@ == "Camera service is not responding. Please restart Boothy."@,
        r.diagnostic is Some,
        r.diagnostic->0@ == "IPC timeout during operation: "@ + operation@,
        r.context@.len() == 0,
        r.severity == ErrorSeverity::Error,
{
    let mut diagnostic = owned("IPC timeout during operation: ");
    diagnostic.append(operation);
    BoothyError::with_diagnostic(
        owned(IPC_TIMEOUT),
        owned("Camera service is not responding. Please restart Boothy."),
        diagnostic,
    ).with_severity(ErrorSeverity::Error)
}

/// The link to the sidecar was lost.
pub fn disconnect() -> (r: BoothyError)
    ensures
        r.code@ == "IPC_DISCONNECT"@,
        r.message@ == "Camera service disconnected. Please restart Boothy."@,
        r.diagnostic is Some,
        r.diagnostic->0@ == "IPC connection to sidecar lost"@,
        r.context@.len() == 0,
        r.severity == ErrorSeverity::Critical,
{
    BoothyError::with_diagnostic(
        owned(IPC_DISCONNECT),
        owned("Camera service disconnected. Please restart Boothy."),
        owned("IPC connection to sidecar lost"),
    ).with_severity(ErrorSeverity::Critical)
}

/// The sidecar process stopped unexpectedly.
pub fn sidecar_crash(diagnostic: String) -> (r: BoothyError)
    ensures
        r.code@ == "SIDECAR_CRASH"@,
        r.message@ == "Camera service stopped unexpectedly. Please restart Boothy."@,
        r.diagnostic == Some(diagnostic),
        r.context@.len() == 0,
        r.severity == ErrorSeverity::Critical,
{
    BoothyError::with_diagnostic(
        owned(SIDECAR_CRASH),
        owned("Camera service stopped unexpectedly. Please restart Boothy."),
        diagnostic,
    ).with_severity(ErrorSeverity::Critical)
}

/// The sidecar could not be started.
pub fn sidecar_start_failed(diagnostic: String) -> (r: BoothyError)
    ensures
        r.code@ == "SIDECAR_START_FAILED"@,
        r.message@ == "Camera service could not be started. Please restart Boothy."@,
        r.diagnostic == Some(diagnostic),
        r.context@.len() == 0,
        r.severity == ErrorSeverity::Critical,
{
    BoothyError::with_diagnostic(
        owned(SIDECAR_START_FAILED),
        owned("Camera service could not be started. Please restart Boothy."),
        diagnostic,
    ).with_severity(ErrorSeverity::Critical)
}

} // verus!

//! Camera error codes and their host errors.

use vstd::prelude::*;
use crate::error::{BoothyError, ErrorSeverity};
use crate::strings::owned;

verus! {

pub const CAMERA_DISCONNECT: &'static str = "CAMERA_DISCONNECT";
pub const CAPTURE_FAILED: &'static str = "CAPTURE_FAILED";
pub const TRANSFER_FAILED: &'static str = "TRANSFER_FAILED";
pub const CAMERA_NOT_FOUND: &'static str = "CAMERA_NOT_FOUND";

pub fn disconnect(diagnostic: String) -> (r: BoothyError)
    ensures
        r.code@ == "CAMERA_DISCONNECT"@,
        r.message@ == "Camera disconnected. Please check the camera connection and try again."@,
        r.diagnostic == Some(diagnostic),
        r.context@.len() == 0,
        r.severity == ErrorSeverity::Error,
{
    BoothyError::with_diagnostic(
        owned(CAMERA_DISCONNECT),
        owned("Camera disconnected. Please check the camera connection and try again."),
        diagnostic,
    ).with_severity(ErrorSeverity::Error)
}

pub fn capture_failed(diagnostic: String) -> (r: BoothyError)
    ensures
        r.code@ == "CAPTURE_FAILED"@,
        r.message@ == "Failed to capture photo. Please try again."@,
        r.diagnostic == Some(diagnostic),
        r.context@.len() == 0,
        r.severity == ErrorSeverity::Error,
{
    BoothyError::with_diagnostic(
        owned(CAPTURE_FAILED),
        owned("Failed to capture photo. Please try again."),
        diagnostic,
    ).with_severity(ErrorSeverity::Error)
}

pub fn transfer_failed(diagnostic: String) -> (r: BoothyError)
    ensures
        r.code@ == "TRANSFER_FAILED"@,
        r.message@ == "Failed to transfer photo from camera. Please try again."@,
        r.diagnostic == Some(diagnostic),
        r.context@.len() == 0,
        r.severity == ErrorSeverity::Error,
{
    BoothyError::with_diagnostic(
        owned(TRANSFER_FAILED),
        owned("Failed to transfer photo from camera. Please try again."),
        diagnostic,
    ).with_severity(ErrorSeverity::Error)
}

pub fn not_found() -> (r: BoothyError)
    ensures
        r.code@ == "CAMERA_NOT_FOUND"@,
        r.message@ == "No camera detected. Please connect a camera and restart Boothy."@,
        r.diagnostic is None,
        r.context@.len() == 0,
        r.severity == ErrorSeverity::Error,
{
    BoothyError::new(
        owned(CAMERA_NOT_FOUND),
        owned("No camera detected. Please connect a camera and restart Boothy."),
    ).with_severity(ErrorSeverity::Error)
}

} // verus!

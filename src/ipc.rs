//! Wire model of the sidecar protocol: envelopes, error codes, the
//! customer-safe and diagnostic texts, version checks and line framing.

use vstd::prelude::*;
use vstd::string::*;
use crate::correlation::uuid_v4_text;
use crate::strings::{contains_char, owned, str_equals};

verus! {

/// Protocol version carried by every envelope.
pub const IPC_PROTOCOL_VERSION: &'static str = "1.0.0";

pub open spec fn protocol_version_spec() -> Seq<char> {
    "1.0.0"@
}

/// Kind of an envelope.
#[derive(Clone, Copy, Debug, PartialEq, Eq, Structural)]
pub enum IpcMessageType {
    Request,
    Response,
    Event,
    Error,
}

/// Error codes of the wire protocol.
#[derive(Clone, Copy, Debug, PartialEq, Eq, Structural)]
pub enum IpcErrorCode {
    VersionMismatch,
    Timeout,
    Disconnect,
    CameraNotConnected,
    CaptureFailed,
    FileTransferFailed,
    InvalidPayload,
    SessionDestinationNotSet,
    FileSystemError,
    Unknown,
}

impl IpcErrorCode {
    /// The code's tag as written in diagnostics (its variant name).
    pub open spec fn tag(self) -> Seq<char> {
        match self {
            IpcErrorCode::VersionMismatch => "VersionMismatch"@,
            IpcErrorCode::Timeout => "Timeout"@,
            IpcErrorCode::Disconnect => "Disconnect"@,
            IpcErrorCode::CameraNotConnected => "CameraNotConnected"@,
            IpcErrorCode::CaptureFailed => "CaptureFailed"@,
            IpcErrorCode::FileTransferFailed => "FileTransferFailed"@,
            IpcErrorCode::InvalidPayload => "InvalidPayload"@,
            IpcErrorCode::SessionDestinationNotSet => "SessionDestinationNotSet"@,
            IpcErrorCode::FileSystemError => "FileSystemError"@,
            IpcErrorCode::Unknown => "Unknown"@,
        }
    }

    /// The code as written on the wire.
    pub open spec fn wire(self) -> Seq<char> {
        match self {
            IpcErrorCode::VersionMismatch => "VERSION_MISMATCH"@,
            IpcErrorCode::Timeout => "TIMEOUT"@,
            IpcErrorCode::Disconnect => "DISCONNECT"@,
            IpcErrorCode::CameraNotConnected => "CAMERA_NOT_CONNECTED"@,
            IpcErrorCode::CaptureFailed => "CAPTURE_FAILED"@,
            IpcErrorCode::FileTransferFailed => "FILE_TRANSFER_FAILED"@,
            IpcErrorCode::InvalidPayload => "INVALID_PAYLOAD"@,
            IpcErrorCode::SessionDestinationNotSet => "SESSION_DESTINATION_NOT_SET"@,
            IpcErrorCode::FileSystemError => "FILE_SYSTEM_ERROR"@,
            IpcErrorCode::Unknown => "UNKNOWN"@,
        }
    }

    pub fn tag_str(&self) -> (r: &'static str)
        ensures
            r@ == self.tag(),
    {
        match self {
            IpcErrorCode::VersionMismatch => "VersionMismatch",
            IpcErrorCode::Timeout => "Timeout",
            IpcErrorCode::Disconnect => "Disconnect",
            IpcErrorCode::CameraNotConnected => "CameraNotConnected",
            IpcErrorCode::CaptureFailed => "CaptureFailed",
            IpcErrorCode::FileTransferFailed => "FileTransferFailed",
            IpcErrorCode::InvalidPayload => "InvalidPayload",
            IpcErrorCode::SessionDestinationNotSet => "SessionDestinationNotSet",
            IpcErrorCode::FileSystemError => "FileSystemError",
            IpcErrorCode::Unknown => "Unknown",
        }
    }

    pub fn wire_str(&self) -> (r: &'static str)
        ensures
            r@ == self.wire(),
    {
        match self {
            IpcErrorCode::VersionMismatch => "VERSION_MISMATCH",
            IpcErrorCode::Timeout => "TIMEOUT",
            IpcErrorCode::Disconnect => "DISCONNECT",
            IpcErrorCode::CameraNotConnected => "CAMERA_NOT_CONNECTED",
            IpcErrorCode::CaptureFailed => "CAPTURE_FAILED",
            IpcErrorCode::FileTransferFailed => "FILE_TRANSFER_FAILED",
            IpcErrorCode::InvalidPayload => "INVALID_PAYLOAD",
            IpcErrorCode::SessionDestinationNotSet => "SESSION_DESTINATION_NOT_SET",
            IpcErrorCode::FileSystemError => "FILE_SYSTEM_ERROR",
            IpcErrorCode::Unknown => "UNKNOWN",
        }
    }

    /// Reads a wire code; `None` for text that names no code.
    pub fn from_wire(s: &str) -> (r: Option<IpcErrorCode>)
        ensures
            r is Some ==> r->0.wire() == s@,
            r is None ==> forall|c: IpcErrorCode| c.wire() != s@,
    {
        let all = [
            IpcErrorCode::VersionMismatch,
            IpcErrorCode::Timeout,
            IpcErrorCode::Disconnect,
            IpcErrorCode::CameraNotConnected,
            IpcErrorCode::CaptureFailed,
            IpcErrorCode::FileTransferFailed,
            IpcErrorCode::InvalidPayload,
            IpcErrorCode::SessionDestinationNotSet,
            IpcErrorCode::FileSystemError,
            IpcErrorCode::Unknown,
        ];
        let mut i: usize = 0;
        while i < 10
            invariant
                i <= 10,
                forall|k: int| 0 <= k < i ==> (#[trigger] all@[k]).wire() != s@,
                all@ == seq![
                    IpcErrorCode::VersionMismatch,
                    IpcErrorCode::Timeout,
                    IpcErrorCode::Disconnect,
                    IpcErrorCode::CameraNotConnected,
                    IpcErrorCode::CaptureFailed,
                    IpcErrorCode::FileTransferFailed,
                    IpcErrorCode::InvalidPayload,
                    IpcErrorCode::SessionDestinationNotSet,
                    IpcErrorCode::FileSystemError,
                    IpcErrorCode::Unknown,
                ],
            decreases 10 - i,
        {
            let c = all[i];
            if str_equals(c.wire_str(), s) {
                return Some(c);
            }
            i = i + 1;
        }
        assert forall|c: IpcErrorCode| c.wire() != s@ by {
            match c {
                IpcErrorCode::VersionMismatch => assert(all@[0] == c),
                IpcErrorCode::Timeout => assert(all@[1] == c),
                IpcErrorCode::Disconnect => assert(all@[2] == c),
                IpcErrorCode::CameraNotConnected => assert(all@[3] == c),
                IpcErrorCode::CaptureFailed => assert(all@[4] == c),
                IpcErrorCode::FileTransferFailed => assert(all@[5] == c),
                IpcErrorCode::InvalidPayload => assert(all@[6] == c),
                IpcErrorCode::SessionDestinationNotSet => assert(all@[7] == c),
                IpcErrorCode::FileSystemError => assert(all@[8] == c),
                IpcErrorCode::Unknown => assert(all@[9] == c),
            }
        }
        None
    }
}

/// Error details carried by an `error` envelope or event.
#[derive(Clone, Debug)]
pub struct IpcError {
    pub code: IpcErrorCode,
    pub message: String,
    /// Key/value pairs with technical detail, in the order given.
    pub context: Option<Vec<(String, String)>>,
}

pub open spec fn customer_safe_text(code: IpcErrorCode) -> Seq<char> {
    match code {
        IpcErrorCode::CameraNotConnected =>
            "Camera is not connected. Please check the camera connection and try again."@,
        IpcErrorCode::CaptureFailed => "Photo capture failed. Please try again."@,
        IpcErrorCode::FileTransferFailed =>
            "Failed to transfer photo from camera. Please try again."@,
        IpcErrorCode::Disconnect => "Camera connection lost. Please reconnect the camera."@,
        _ => "An error occurred. Please contact support if this continues."@,
    }
}

/// What the standard library's `{:?}` makes of a string (quoted and escaped).
pub uninterp spec fn debug_quoted_text(s: Seq<char>) -> Seq<char>;

/// Relies on `format!("{:?}", ..)` of std for `str`: the quoted, escaped text.
#[verifier::external_body]
fn debug_quoted(s: &str) -> (r: String)
    ensures
        r@ == debug_quoted_text(s@),
{
    format!("{:?}", s)
}

/// The entries of a context map rendered as `"k": "v"` pairs joined by `, `.
pub open spec fn context_entries_text(ctx: Seq<(String, String)>) -> Seq<char>
    decreases ctx.len(),
{
    if ctx.len() == 0 {
        Seq::empty()
    } else {
        let last = ctx[ctx.len() - 1];
        let head = context_entries_text(ctx.drop_last());
        let pair = debug_quoted_text(last.0@) + ": "@ + debug_quoted_text(last.1@);
        if ctx.len() == 1 { pair } else { head + ", "@ + pair }
    }
}

pub open spec fn diagnostic_text(e: IpcError) -> Seq<char> {
    let base = "["@ + e.code.tag() + "] "@ + e.message@;
    match e.context {
        Some(ctx) => base + " | Context: {"@ + context_entries_text(ctx@) + "}"@,
        None => base,
    }
}

impl IpcError {
    /// A message fit for customers, chosen by the code alone.
    pub fn customer_safe_message(&self) -> (r: String)
        ensures
            r@ == customer_safe_text(self.code),
    {
        match self.code {
            IpcErrorCode::CameraNotConnected => owned(
                "Camera is not connected. Please check the camera connection and try again.",
            ),
            IpcErrorCode::CaptureFailed => owned("Photo capture failed. Please try again."),
            IpcErrorCode::FileTransferFailed => owned(
                "Failed to transfer photo from camera. Please try again.",
            ),
            IpcErrorCode::Disconnect => owned(
                "Camera connection lost. Please reconnect the camera.",
            ),
            _ => owned("An error occurred. Please contact support if this continues."),
        }
    }

    /// `[Tag] message`, followed by ` | Context: {..}` when a context is present.
    pub fn diagnostic_message(&self) -> (r: String)
        ensures
            r@ == diagnostic_text(*self),
    {
        let mut msg = owned("[");
        msg.append(self.code.tag_str());
        msg.append("] ");
        msg.append(self.message.as_str());
        match &self.context {
            Some(ctx) => {
                msg.append(" | Context: {");
                let mut i: usize = 0;
                while i < ctx.len()
                    invariant
                        i <= ctx@.len(),
                        self.context == Some(*ctx),
                        msg@ == "["@ + self.code.tag() + "] "@ + self.message@ + " | Context: {"@
                            + context_entries_text(ctx@.subrange(0, i as int)),
                    decreases ctx.len() - i,
                {
                    let ghost before = msg@;
                    if i > 0 {
                        msg.append(", ");
                    }
                    let k = debug_quoted(ctx[i].0.as_str());
                    let v = debug_quoted(ctx[i].1.as_str());
                    msg.append(k.as_str());
                    msg.append(": ");
                    msg.append(v.as_str());
                    proof {
                        let next = ctx@.subrange(0, i + 1);
                        assert(next.drop_last() =~= ctx@.subrange(0, i as int));
                        assert(next[next.len() - 1] == ctx@[i as int]);
                        if i > 0 {
                            assert(msg@ =~= before + ", "@ + (k@ + ": "@ + v@));
                        } else {
                            assert(msg@ =~= before + (k@ + ": "@ + v@));
                            assert(context_entries_text(ctx@.subrange(0, 0)) == Seq::<char>::empty());
                        }
                    }
                    i = i + 1;
                }
                msg.append("}");
                assert(ctx@.subrange(0, ctx@.len() as int) =~= ctx@);
            },
            None => {},
        }
        msg
    }
}

/// Payload of `event.camera.photoTransferred`.
#[derive(Clone, Debug)]
pub struct PhotoTransferredPayload {
    /// Absolute path of the transferred raw file.
    pub path: String,
    /// ISO-8601 UTC time the transfer completed.
    pub transferred_at: String,
    pub original_filename: String,
    pub file_size: u64,
}

/// Payload of `event.camera.captureStarted`.
#[derive(Clone, Debug)]
pub struct CaptureStartedPayload {
    pub started_at: String,
}

/// Payload of `event.camera.error`.
#[derive(Clone, Debug)]
pub struct CameraErrorPayload {
    pub error: IpcError,
}

/// Request payload of `camera.setSessionDestination`.
#[derive(Clone, Debug)]
pub struct SetSessionDestinationRequest {
    /// The session's `Raw/` folder.
    pub destination_path: String,
    pub session_name: String,
}

/// Response payload of `camera.setSessionDestination`.
#[derive(Clone, Debug)]
pub struct SetSessionDestinationResponse {
    pub success: bool,
    pub destination_path: String,
}

/// The UI's `boothy-photo-transferred` event.
#[derive(Clone, Debug)]
pub struct PhotoTransferredEvent {
    pub path: String,
    pub filename: String,
    pub file_size: u64,
    pub transferred_at: String,
    pub correlation_id: String,
}

/// The UI event for a transferred photo, tagged with the envelope's correlation id.
pub fn photo_transferred_event(payload: PhotoTransferredPayload, correlation_id: String) -> (r: PhotoTransferredEvent)
    ensures
        r == (PhotoTransferredEvent {
            path: payload.path,
            filename: payload.original_filename,
            file_size: payload.file_size,
            transferred_at: payload.transferred_at,
            correlation_id,
        }),
{
    PhotoTransferredEvent {
        path: payload.path,
        filename: payload.original_filename,
        file_size: payload.file_size,
        transferred_at: payload.transferred_at,
        correlation_id,
    }
}

/// One envelope of the protocol. The timestamp is ISO-8601 UTC text and the
/// payload, when present, is JSON text.
#[derive(Clone, Debug)]
pub struct IpcMessage {
    pub protocol_version: String,
    pub message_type: IpcMessageType,
    pub request_id: Option<String>,
    pub correlation_id: String,
    pub timestamp: String,
    pub method: String,
    pub payload: Option<String>,
    pub error: Option<IpcError>,
}

/// Relies on `chrono::Utc::now` and RFC 3339 formatting: the current UTC time as text.
#[verifier::external_body]
fn utc_timestamp_now() -> (r: String)
{
    chrono::Utc::now().to_rfc3339_opts(chrono::SecondsFormat::AutoSi, true)
}

impl IpcMessage {
    /// An event envelope stamped with the current time.
    pub fn new_event(method: String, correlation_id: String, payload: String) -> (r: IpcMessage)
        ensures
            r.protocol_version@ == protocol_version_spec(),
            r.message_type == IpcMessageType::Event,
            r.request_id is None,
            r.correlation_id == correlation_id,
            r.method == method,
            r.payload == Some(payload),
            r.error is None,
    {
        IpcMessage {
            protocol_version: owned(IPC_PROTOCOL_VERSION),
            message_type: IpcMessageType::Event,
            request_id: None,
            correlation_id,
            timestamp: utc_timestamp_now(),
            method,
            payload: Some(payload),
            error: None,
        }
    }

    /// A request envelope stamped with the current time.
    pub fn new_request(method: String, correlation_id: String, request_id: String, payload: String)
        -> (r: IpcMessage)
        ensures
            r.protocol_version@ == protocol_version_spec(),
            r.message_type == IpcMessageType::Request,
            r.request_id == Some(request_id),
            r.correlation_id == correlation_id,
            r.method == method,
            r.payload == Some(payload),
            r.error is None,
    {
        IpcMessage {
            protocol_version: owned(IPC_PROTOCOL_VERSION),
            message_type: IpcMessageType::Request,
            request_id: Some(request_id),
            correlation_id,
            timestamp: utc_timestamp_now(),
            method,
            payload: Some(payload),
            error: None,
        }
    }

    /// A response envelope stamped with the current time.
    pub fn new_response(method: String, correlation_id: String, request_id: String, payload: String)
        -> (r: IpcMessage)
        ensures
            r.protocol_version@ == protocol_version_spec(),
            r.message_type == IpcMessageType::Response,
            r.request_id == Some(request_id),
            r.correlation_id == correlation_id,
            r.method == method,
            r.payload == Some(payload),
            r.error is None,
    {
        IpcMessage {
            protocol_version: owned(IPC_PROTOCOL_VERSION),
            message_type: IpcMessageType::Response,
            request_id: Some(request_id),
            correlation_id,
            timestamp: utc_timestamp_now(),
            method,
            payload: Some(payload),
            error: None,
        }
    }

    /// An error envelope stamped with the current time.
    pub fn new_error(method: String, correlation_id: String, request_id: Option<String>, error: IpcError)
        -> (r: IpcMessage)
        ensures
            r.protocol_version@ == protocol_version_spec(),
            r.message_type == IpcMessageType::Error,
            r.request_id == request_id,
            r.correlation_id == correlation_id,
            r.method == method,
            r.payload is None,
            r.error == Some(error),
    {
        IpcMessage {
            protocol_version: owned(IPC_PROTOCOL_VERSION),
            message_type: IpcMessageType::Error,
            request_id,
            correlation_id,
            timestamp: utc_timestamp_now(),
            method,
            payload: None,
            error: Some(error),
        }
    }

    /// Accepts the envelope only when it carries this side's protocol version.
    pub fn validate_version(&self) -> (r: Result<(), IpcError>)
        ensures
            r is Ok <==> self.protocol_version@ == protocol_version_spec(),
            r is Err ==> r->Err_0.code == IpcErrorCode::VersionMismatch
                && r->Err_0.message@ == "Protocol version mismatch: expected "@
                    + protocol_version_spec() + ", got "@ + self.protocol_version@
                && r->Err_0.context is Some
                && r->Err_0.context->0@.len() == 2
                && r->Err_0.context->0@[0].0@ == "expected"@
                && r->Err_0.context->0@[0].1@ == protocol_version_spec()
                && r->Err_0.context->0@[1].0@ == "actual"@
                && r->Err_0.context->0@[1].1@ == self.protocol_version@,
    {
        if str_equals(self.protocol_version.as_str(), IPC_PROTOCOL_VERSION) {
            return Ok(());
        }
        let mut message = owned("Protocol version mismatch: expected ");
        message.append(IPC_PROTOCOL_VERSION);
        message.append(", got ");
        message.append(self.protocol_version.as_str());
        let context = vec![
            (owned("expected"), owned(IPC_PROTOCOL_VERSION)),
            (owned("actual"), self.protocol_version.clone()),
        ];
        Err(IpcError { code: IpcErrorCode::VersionMismatch, message, context: Some(context) })
    }
}

/// Relies on `chrono::Utc::now` and `DateTime::timestamp_millis`:
/// milliseconds since the Unix epoch.
#[verifier::external_body]
fn utc_now_millis() -> (r: i64)
{
    chrono::Utc::now().timestamp_millis()
}

/// Decimal digits of `n`, most significant first, without leading zeros.
pub open spec fn decimal(n: nat) -> Seq<char>
    decreases n,
{
    if n < 10 {
        "0123456789"@.subrange(n as int, n + 1int)
    } else {
        decimal(n / 10) + "0123456789"@.subrange((n % 10) as int, (n % 10) as int + 1)
    }
}

/// `n` in decimal.
pub fn decimal_text(n: u64) -> (r: String)
    ensures
        r@ == decimal(n as nat),
    decreases n,
{
    let table = "0123456789";
    proof {
        reveal_strlit("0123456789");
    }
    if n < 10 {
        let d = n as usize;
        owned(table.substring_char(d, d + 1))
    } else {
        let mut s = decimal_text(n / 10);
        let d = (n % 10) as usize;
        s.append(table.substring_char(d, d + 1));
        s
    }
}

/// A fresh request id: `req-` and a random UUID.
pub fn generate_request_id() -> (r: String)
    ensures
        r@.len() == 40,
        r@.subrange(0, 4) == "req-"@,
{
    proof { reveal_strlit("req-"); }
    let mut id = owned("req-");
    let u = uuid_v4_text();
    id.append(u.as_str());
    assert(id@.subrange(0, 4) =~= "req-"@);
    id
}

/// A fresh correlation id: `corr-`, the milliseconds since the Unix epoch
/// (zero before it), `-` and a random UUID.
pub fn generate_correlation_id() -> (r: String)
    ensures
        r@.len() >= 42,
        r@.subrange(0, 5) == "corr-"@,
{
    proof {
        reveal_strlit("corr-");
        reveal_strlit("-");
    }
    let mut id = owned("corr-");
    let millis = utc_now_millis();
    let t = decimal_text(if millis < 0 { 0 } else { millis as u64 });
    id.append(t.as_str());
    id.append("-");
    let u = uuid_v4_text();
    id.append(u.as_str());
    assert(id@.subrange(0, 5) =~= "corr-"@);
    id
}

/// Why serialized text cannot be sent as one frame.
#[derive(Clone, Copy, Debug, PartialEq, Eq, Structural)]
pub enum FrameError {
    /// The text holds a line break of its own.
    EmbeddedNewline,
}

pub open spec fn count_char(s: Seq<char>, c: char) -> nat
    decreases s.len(),
{
    if s.len() == 0 {
        0
    } else {
        count_char(s.drop_last(), c) + if s.last() == c { 1nat } else { 0nat }
    }
}

/// Turns serialized envelope text into one frame: the text and a single
/// `\n`. Text holding `\n` or `\r` is refused.
pub fn frame_line(json: &str) -> (r: Result<String, FrameError>)
    ensures
        r is Ok <==> !json@.contains('\n') && !json@.contains('\r'),
        r is Ok ==> r->Ok_0@ == json@ + seq!['\n'],
        r is Err ==> r->Err_0 == FrameError::EmbeddedNewline,
{
    if contains_char(json, '\n') || contains_char(json, '\r') {
        return Err(FrameError::EmbeddedNewline);
    }
    let mut line = owned(json);
    line.append("\n");
    proof {
        reveal_strlit("\n");
    }
    assert(line@ =~= json@ + seq!['\n']);
    Ok(line)
}

proof fn lemma_count_absent(s: Seq<char>, c: char)
    requires
        !s.contains(c),
    ensures
        count_char(s, c) == 0,
    decreases s.len(),
{
    if s.len() > 0 {
        assert(!s.drop_last().contains(c)) by {
            if s.drop_last().contains(c) {
                let k = choose|k: int| 0 <= k < s.drop_last().len() && s.drop_last()[k] == c;
                assert(s[k] == c);
            }
        }
        lemma_count_absent(s.drop_last(), c);
    }
}

/// Every frame holds exactly one line break, and it is the last character.
pub proof fn lemma_frame_single_newline(json: &str)
    requires
        !json@.contains('\n'),
        !json@.contains('\r'),
    ensures
        ({
            let f = json@ + seq!['\n'];
            &&& count_char(f, '\n') == 1
            &&& count_char(f, '\r') == 0
            &&& f.last() == '\n'
            &&& f.drop_last() == json@
        }),
{
    let f = json@ + seq!['\n'];
    assert(f.drop_last() =~= json@);
    lemma_count_absent(json@, '\n');
    lemma_count_absent(json@, '\r');
}

} // verus!

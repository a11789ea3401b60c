//! Host-level errors: a code, a customer-safe message, an optional
//! diagnostic, a severity and a context of string entries.

use vstd::prelude::*;
use crate::entries::{entries_view, upsert, upsert_entry};
use crate::ipc::{IpcError, IpcErrorCode, customer_safe_text, diagnostic_text};

pub mod camera;
pub mod export;
pub mod import;
pub mod ipc;
pub mod preset;
pub mod session;

verus! {

/// How urgent an error is.
#[derive(Clone, Copy, Debug, PartialEq, Eq, Structural)]
pub enum ErrorSeverity {
    Warning,
    Error,
    Critical,
}

/// An error as the UI sees it.
#[derive(Clone, Debug)]
pub struct BoothyError {
    pub code: String,
    pub message: String,
    pub diagnostic: Option<String>,
    /// Context entries (correlation ids, file paths, ...), keys unique.
    pub context: Vec<(String, String)>,
    pub severity: ErrorSeverity,
}

/// Severity of a wire error once it reaches the host.
pub open spec fn severity_of(code: IpcErrorCode) -> ErrorSeverity {
    match code {
        IpcErrorCode::VersionMismatch | IpcErrorCode::Disconnect
        | IpcErrorCode::CameraNotConnected => ErrorSeverity::Critical,
        _ => ErrorSeverity::Error,
    }
}

/// Context entries of a wire error after copying them one by one.
pub open spec fn copied_context(ctx: Seq<(Seq<char>, Seq<char>)>) -> Seq<(Seq<char>, Seq<char>)>
    decreases ctx.len(),
{
    if ctx.len() == 0 {
        Seq::empty()
    } else {
        let last = ctx.last();
        upsert(copied_context(ctx.drop_last()), last.0, last.1)
    }
}

pub fn severity_for(code: IpcErrorCode) -> (r: ErrorSeverity)
    ensures
        r == severity_of(code),
{
    match code {
        IpcErrorCode::VersionMismatch | IpcErrorCode::Disconnect
        | IpcErrorCode::CameraNotConnected => ErrorSeverity::Critical,
        _ => ErrorSeverity::Error,
    }
}

impl BoothyError {
    /// An error without diagnostic, of severity `Error`.
    pub fn new(code: String, message: String) -> (r: BoothyError)
        ensures
            r.code == code,
            r.message == message,
            r.diagnostic is None,
            r.context@.len() == 0,
            r.severity == ErrorSeverity::Error,
    {
        BoothyError { code, message, diagnostic: None, context: Vec::new(), severity: ErrorSeverity::Error }
    }

    /// An error with a customer message and a diagnostic, of severity `Error`.
    pub fn with_diagnostic(code: String, message: String, diagnostic: String) -> (r: BoothyError)
        ensures
            r.code == code,
            r.message == message,
            r.diagnostic == Some(diagnostic),
            r.context@.len() == 0,
            r.severity == ErrorSeverity::Error,
    {
        BoothyError {
            code,
            message,
            diagnostic: Some(diagnostic),
            context: Vec::new(),
            severity: ErrorSeverity::Error,
        }
    }

    /// Sets one context entry, replacing an entry with the same key.
    pub fn with_context(self, key: &str, value: String) -> (r: BoothyError)
        ensures
            entries_view(r.context@) == upsert(entries_view(self.context@), key@, value@),
            r.code == self.code,
            r.message == self.message,
            r.diagnostic == self.diagnostic,
            r.severity == self.severity,
    {
        let mut e = self;
        upsert_entry(&mut e.context, key, value);
        e
    }

    pub fn with_severity(self, severity: ErrorSeverity) -> (r: BoothyError)
        ensures
            r == (BoothyError { severity, ..self }),
    {
        let mut e = self;
        e.severity = severity;
        e
    }

    /// The diagnostic for admins when there is one, else the customer message.
    pub fn message_for_mode(&self, is_admin: bool) -> (r: &str)
        ensures
            r@ == (if is_admin && self.diagnostic is Some {
                self.diagnostic->0@
            } else {
                self.message@
            }),
    {
        match &self.diagnostic {
            Some(d) => {
                if is_admin {
                    d.as_str()
                } else {
                    self.message.as_str()
                }
            },
            None => self.message.as_str(),
        }
    }

    /// The host error for a wire error: the wire code, the customer-safe
    /// message, the diagnostic text, the context copied and the mapped severity.
    pub fn from_ipc_error(e: IpcError) -> (r: BoothyError)
        ensures
            r.code@ == e.code.wire(),
            r.message@ == customer_safe_text(e.code),
            r.diagnostic is Some && r.diagnostic->0@ == diagnostic_text(e),
            entries_view(r.context@) == (match e.context {
                Some(ctx) => copied_context(entries_view(ctx@)),
                None => Seq::empty(),
            }),
            r.severity == severity_of(e.code),
    {
        let code = crate::strings::owned(e.code.wire_str());
        let diagnostic = e.diagnostic_message();
        let message = e.customer_safe_message();
        let mut context: Vec<(String, String)> = Vec::new();
        assert(entries_view(context@) =~= Seq::empty());
        match &e.context {
            Some(ctx) => {
                let mut i: usize = 0;
                while i < ctx.len()
                    invariant
                        i <= ctx@.len(),
                        entries_view(context@) == copied_context(
                            entries_view(ctx@.subrange(0, i as int)),
                        ),
                    decreases ctx.len() - i,
                {
                    proof {
                        let next = entries_view(ctx@.subrange(0, i + 1));
                        assert(next.drop_last() =~= entries_view(ctx@.subrange(0, i as int)));
                    }
                    upsert_entry(&mut context, ctx[i].0.as_str(), ctx[i].1.clone());
                    i = i + 1;
                }
                assert(ctx@.subrange(0, ctx@.len() as int) =~= ctx@);
            },
            None => {},
        }
        BoothyError {
            code,
            message,
            diagnostic: Some(diagnostic),
            context,
            severity: severity_for(e.code),
        }
    }
}

} // verus!

//! The sidecar supervisor's shared record and its transitions: connection
//! state, start arbitration, the pending-request table, routing of incoming
//! envelopes and the diagnostics snapshot. The process, the pipe and the
//! timers live with the caller, which reports what happened and carries out
//! what each transition asks for.

use vstd::prelude::*;
use crate::error::BoothyError;
use crate::error::ipc as ipc_errors;
use crate::ipc::{
    IPC_PROTOCOL_VERSION, IpcError, IpcErrorCode, IpcMessage, IpcMessageType, customer_safe_text,
    diagnostic_text, protocol_version_spec,
};
use crate::keyset::{KeySet, strings_view};
use crate::monitor::{
    CameraAutoRestartDecision, CameraHealth, CameraStatusResponse, IpcConnectionState,
    note_camera_status_internal, restart_rule,
};
use crate::strings::{owned, str_equals};
use vstd::string::*;

verus! {

/// Guarded diagnostics record, camera-health counters included.
#[derive(Clone, Debug)]
pub struct CameraDiagnostics {
    pub ipc_state: IpcConnectionState,
    pub last_error: Option<String>,
    pub last_request_id: Option<String>,
    pub last_correlation_id: Option<String>,
    pub health: CameraHealth,
}

/// Read-only copy of the diagnostics for the UI.
#[derive(Clone, Debug)]
pub struct CameraDiagnosticsSnapshot {
    pub ipc_state: String,
    pub last_error: Option<String>,
    pub protocol_version: String,
    pub request_id: Option<String>,
    pub correlation_id: Option<String>,
}

/// What a caller of `start` does next.
#[derive(Clone, Copy, Debug, PartialEq, Eq, Structural)]
pub enum StartStep {
    /// Already connected: report success.
    AlreadyConnected,
    /// Another start is running: wait for it (and ask again afterwards).
    InProgress,
    /// This caller is the starter: probe, spawn and connect, then `end_start`.
    Proceed,
}

/// How one request ended, as seen by the caller that sent it.
#[derive(Debug)]
pub enum RequestOutcome {
    /// The response arrived.
    Payload,
    /// The sidecar answered with an error.
    Failed(IpcError),
    /// No writer was installed.
    PipeUnavailable,
    /// The writer no longer accepts frames.
    WriterUnavailable,
    /// The writer reported an I/O error.
    WriteFailed(String),
    /// The writer dropped the acknowledgement.
    AckClosed,
    /// The writer did not acknowledge in time.
    WriteTimeout,
    /// The waiter was dropped without an answer.
    ResponseClosed,
    /// No answer within the caller's deadline.
    ResponseTimeout,
}

/// What the caller of a request gets and must do.
#[derive(Debug)]
pub struct RequestResolution {
    /// `Ok` when the payload arrived, else the message for the caller.
    pub result: Result<(), String>,
    /// An error to show in the UI.
    pub ui_error: Option<BoothyError>,
    /// Stop the sidecar for restart and start it again after a short delay.
    pub restart: bool,
    /// Other pending requests to reject with a disconnect error.
    pub rejected: Vec<String>,
}

/// What to do with one incoming envelope.
#[derive(Debug)]
pub enum IncomingAction {
    /// An event: dispatch it by method.
    Event,
    /// Hand the payload to the waiter of the envelope's request id.
    DeliverPayload,
    /// Hand this error to the waiter of the envelope's request id.
    DeliverError(IpcError),
    /// Nobody waits for this request id: warn.
    NoWaiter,
    /// A response without request id: warn.
    MissingRequestId,
    /// An error for nobody in particular: show it in the UI.
    EmitError(BoothyError),
    /// The sidecar sent a request: warn and ignore.
    UnexpectedRequest,
    /// Nothing to do.
    Ignored,
}

/// Pending requests to reject, and an error for the UI, after the link ended.
#[derive(Debug)]
pub struct LinkClosed {
    pub rejected: Vec<String>,
    pub ui_error: Option<BoothyError>,
}

/// What stopping asks of the caller.
#[derive(Debug)]
pub struct StopOutcome {
    /// Send `system.shutdown` before closing the pipe.
    pub send_shutdown: bool,
    /// Pending requests to reject with a disconnect error.
    pub rejected: Vec<String>,
}

/// The supervisor's record.
#[derive(Debug)]
pub struct CameraIpcClient {
    pub connected: bool,
    pub diagnostics: CameraDiagnostics,
    pub starting: bool,
    pub pending: KeySet,
    pub status_monitor_started: bool,
}

/// Start arbitration: the step returned and the new `starting` flag.
pub open spec fn start_rule(connected: bool, starting: bool) -> (StartStep, bool) {
    if connected {
        (StartStep::AlreadyConnected, starting)
    } else if starting {
        (StartStep::InProgress, starting)
    } else {
        (StartStep::Proceed, true)
    }
}

/// How many of `n` start calls, made while no start finishes, proceed.
pub open spec fn starters(connected: bool, starting: bool, n: nat) -> nat
    decreases n,
{
    if n == 0 {
        0
    } else {
        let (step, next) = start_rule(connected, starting);
        (if step == StartStep::Proceed { 1nat } else { 0nat }) + starters(connected, next, (n - 1) as nat)
    }
}

/// However many callers start at once, exactly one of them spawns and
/// connects when the link is down and no start runs; none does while a
/// start is already running or the link is up.
pub proof fn lemma_single_starter(connected: bool, starting: bool, n: nat)
    ensures
        starters(connected, starting, n) <= 1,
        (connected || starting) ==> starters(connected, starting, n) == 0,
        !connected && !starting && n > 0 ==> starters(connected, starting, n) == 1,
    decreases n,
{
    if n > 0 {
        let (step, next) = start_rule(connected, starting);
        lemma_single_starter(connected, next, (n - 1) as nat);
    }
}

pub open spec fn reset_health(h: CameraHealth) -> CameraHealth {
    CameraHealth {
        no_camera_streak: 0,
        no_camera_since: None,
        last_camera_detected_at: None,
        sidecar_connected_at: None,
        ..h
    }
}

impl CameraIpcClient {
    /// Pending ids are unique; the link flag and the state agree; no request
    /// is pending unless the link is up.
    pub open spec fn wf(&self) -> bool {
        &&& self.pending.wf()
        &&& self.connected <==> self.diagnostics.ipc_state == IpcConnectionState::Connected
        &&& !self.connected ==> self.pending@.len() == 0
    }

    pub fn new() -> (r: CameraIpcClient)
        ensures
            r.wf(),
            !r.connected,
            !r.starting,
            !r.status_monitor_started,
            r.pending@.len() == 0,
            r.diagnostics.ipc_state == IpcConnectionState::Disconnected,
            r.diagnostics.last_error is None,
            r.diagnostics.last_request_id is None,
            r.diagnostics.last_correlation_id is None,
            r.diagnostics.health.no_camera_streak == 0,
            r.diagnostics.health.no_camera_since is None,
            r.diagnostics.health.last_camera_detected_at is None,
            r.diagnostics.health.last_forced_restart_at is None,
            r.diagnostics.health.sidecar_connected_at is None,
    {
        CameraIpcClient {
            connected: false,
            diagnostics: CameraDiagnostics {
                ipc_state: IpcConnectionState::Disconnected,
                last_error: None,
                last_request_id: None,
                last_correlation_id: None,
                health: CameraHealth::new(),
            },
            starting: false,
            pending: KeySet::new(),
            status_monitor_started: false,
        }
    }

    pub fn is_connected(&self) -> (r: bool)
        ensures
            r == self.connected,
    {
        self.connected
    }

    /// Arbitrates between concurrent starts (see `start_rule`). A caller
    /// told `InProgress` waits, then asks again.
    pub fn begin_start(&mut self) -> (r: StartStep)
        requires
            old(self).wf(),
        ensures
            final(self).wf(),
            (r, final(self).starting) == start_rule(old(self).connected, old(self).starting),
            final(self).connected == old(self).connected,
            final(self).pending@ == old(self).pending@,
            r == StartStep::AlreadyConnected ==> final(self).diagnostics == (CameraDiagnostics {
                last_error: None,
                ..old(self).diagnostics
            }),
            r == StartStep::InProgress ==> final(self).diagnostics == old(self).diagnostics,
            r == StartStep::Proceed ==> final(self).diagnostics == (CameraDiagnostics {
                ipc_state: IpcConnectionState::Reconnecting,
                ..old(self).diagnostics
            }),
    {
        if self.connected {
            self.diagnostics.last_error = None;
            return StartStep::AlreadyConnected;
        }
        if self.starting {
            return StartStep::InProgress;
        }
        self.starting = true;
        self.diagnostics.ipc_state = IpcConnectionState::Reconnecting;
        StartStep::Proceed
    }

    /// The starter is done, whatever the outcome.
    pub fn end_start(&mut self)
        requires
            old(self).wf(),
        ensures
            final(self).wf(),
            !final(self).starting,
            final(self).connected == old(self).connected,
            final(self).pending@ == old(self).pending@,
            final(self).diagnostics == old(self).diagnostics,
    {
        self.starting = false;
    }

    /// The pipe opened at `now`: the link is up and the health counters restart.
    pub fn pipe_connected(&mut self, now: u64)
        requires
            old(self).wf(),
        ensures
            final(self).wf(),
            final(self).connected,
            final(self).starting == old(self).starting,
            final(self).pending@ == old(self).pending@,
            final(self).diagnostics == (CameraDiagnostics {
                ipc_state: IpcConnectionState::Connected,
                last_error: None,
                health: CameraHealth {
                    sidecar_connected_at: Some(now),
                    no_camera_streak: 0,
                    no_camera_since: None,
                    ..old(self).diagnostics.health
                },
                ..old(self).diagnostics
            }),
    {
        self.connected = true;
        self.diagnostics.ipc_state = IpcConnectionState::Connected;
        self.diagnostics.last_error = None;
        self.diagnostics.health.sidecar_connected_at = Some(now);
        self.diagnostics.health.no_camera_streak = 0;
        self.diagnostics.health.no_camera_since = None;
    }

    /// Connecting failed. When the failure is recorded, the link (which is
    /// not up) is marked disconnected and the message kept.
    pub fn pipe_connect_failed(&mut self, message: String, record_error: bool)
        requires
            old(self).wf(),
        ensures
            final(self).wf(),
            final(self).connected == old(self).connected,
            final(self).starting == old(self).starting,
            final(self).pending@ == old(self).pending@,
            !record_error ==> final(self).diagnostics == old(self).diagnostics,
            record_error ==> final(self).diagnostics.last_error == Some(message),
            record_error && !old(self).connected ==> final(self).diagnostics.ipc_state
                == IpcConnectionState::Disconnected,
            record_error && old(self).connected ==> final(self).diagnostics.ipc_state
                == old(self).diagnostics.ipc_state,
            final(self).diagnostics.health == old(self).diagnostics.health,
            final(self).diagnostics.last_request_id == old(self).diagnostics.last_request_id,
            final(self).diagnostics.last_correlation_id == old(self).diagnostics.last_correlation_id,
    {
        if record_error {
            if !self.connected {
                self.diagnostics.ipc_state = IpcConnectionState::Disconnected;
            }
            self.diagnostics.last_error = Some(message);
        }
    }

    fn stop_internal(&mut self, desired: IpcConnectionState) -> (r: StopOutcome)
        requires
            old(self).wf(),
            desired != IpcConnectionState::Connected,
        ensures
            final(self).wf(),
            r.send_shutdown == old(self).connected,
            !final(self).connected,
            strings_view(r.rejected@) == old(self).pending@,
            strings_view(r.rejected@).no_duplicates(),
            final(self).pending@.len() == 0,
            final(self).starting == old(self).starting,
            final(self).status_monitor_started == old(self).status_monitor_started,
            final(self).diagnostics == (CameraDiagnostics {
                ipc_state: desired,
                health: reset_health(old(self).diagnostics.health),
                ..old(self).diagnostics
            }),
    {
        let send_shutdown = self.connected;
        self.connected = false;
        self.diagnostics.ipc_state = desired;
        self.diagnostics.health.no_camera_streak = 0;
        self.diagnostics.health.no_camera_since = None;
        self.diagnostics.health.last_camera_detected_at = None;
        self.diagnostics.health.sidecar_connected_at = None;
        let rejected = self.pending.drain();
        StopOutcome { send_shutdown, rejected }
    }

    /// Stops the sidecar: the link goes down, health counters reset, every
    /// pending request is handed back for rejection.
    pub fn stop_sidecar(&mut self) -> (r: StopOutcome)
        requires
            old(self).wf(),
        ensures
            final(self).wf(),
            r.send_shutdown == old(self).connected,
            !final(self).connected,
            strings_view(r.rejected@) == old(self).pending@,
            strings_view(r.rejected@).no_duplicates(),
            final(self).pending@.len() == 0,
            final(self).starting == old(self).starting,
            final(self).diagnostics == (CameraDiagnostics {
                ipc_state: IpcConnectionState::Disconnected,
                health: reset_health(old(self).diagnostics.health),
                ..old(self).diagnostics
            }),
    {
        self.stop_internal(IpcConnectionState::Disconnected)
    }

    /// As `stop_sidecar`, leaving the state `Reconnecting` for a restart.
    pub fn stop_sidecar_for_restart(&mut self) -> (r: StopOutcome)
        requires
            old(self).wf(),
        ensures
            final(self).wf(),
            r.send_shutdown == old(self).connected,
            !final(self).connected,
            strings_view(r.rejected@) == old(self).pending@,
            strings_view(r.rejected@).no_duplicates(),
            final(self).pending@.len() == 0,
            final(self).starting == old(self).starting,
            final(self).diagnostics == (CameraDiagnostics {
                ipc_state: IpcConnectionState::Reconnecting,
                health: reset_health(old(self).diagnostics.health),
                ..old(self).diagnostics
            }),
    {
        self.stop_internal(IpcConnectionState::Reconnecting)
    }

    /// Registers a request before it is written. Refused when the link is
    /// down, or when the id is already pending.
    pub fn begin_request(&mut self, request_id: &str, correlation_id: &str) -> (r: Result<(), String>)
        requires
            old(self).wf(),
        ensures
            final(self).wf(),
            final(self).connected == old(self).connected,
            final(self).starting == old(self).starting,
            final(self).diagnostics.ipc_state == old(self).diagnostics.ipc_state,
            final(self).diagnostics.health == old(self).diagnostics.health,
            !old(self).connected ==> r is Err && r->Err_0@ == "Sidecar not connected"@
                && final(self).diagnostics.last_error is Some
                && final(self).diagnostics.last_error->0@ == "Sidecar not connected"@
                && final(self).pending@ == old(self).pending@
                && final(self).diagnostics.last_request_id == old(self).diagnostics.last_request_id,
            old(self).connected ==> final(self).diagnostics.last_request_id is Some
                && final(self).diagnostics.last_request_id->0@ == request_id@
                && final(self).diagnostics.last_correlation_id is Some
                && final(self).diagnostics.last_correlation_id->0@ == correlation_id@
                && final(self).diagnostics.last_error == old(self).diagnostics.last_error,
            old(self).connected && !old(self).pending@.contains(request_id@) ==> r is Ok
                && final(self).pending@ == old(self).pending@.push(request_id@),
            old(self).connected && old(self).pending@.contains(request_id@) ==> r is Err
                && r->Err_0@ == "Request id already pending"@
                && final(self).pending@ == old(self).pending@,
    {
        if !self.connected {
            self.diagnostics.last_error = Some(owned("Sidecar not connected"));
            return Err(owned("Sidecar not connected"));
        }
        self.diagnostics.last_request_id = Some(owned(request_id));
        self.diagnostics.last_correlation_id = Some(owned(correlation_id));
        if self.pending.insert(request_id) {
            Ok(())
        } else {
            Err(owned("Request id already pending"))
        }
    }

    fn fail_request(&mut self, request_id: &str, message: String) -> (r: RequestResolution)
        requires
            old(self).wf(),
        ensures
            final(self).wf(),
            final(self).connected == old(self).connected,
            final(self).starting == old(self).starting,
            final(self).pending@ == old(self).pending@.remove_value(request_id@),
            !final(self).pending@.contains(request_id@),
            final(self).diagnostics == (CameraDiagnostics {
                last_error: Some(message),
                ..old(self).diagnostics
            }),
            r.result == Err::<(), String>(message),
            r.ui_error is None,
            !r.restart,
            r.rejected@.len() == 0,
    {
        self.pending.remove(request_id);
        let m2 = message.clone();
        self.diagnostics.last_error = Some(message);
        RequestResolution { result: Err(m2), ui_error: None, restart: false, rejected: Vec::new() }
    }

    /// Settles a request that `begin_request` registered. Whatever the
    /// outcome, its id leaves the pending table and exactly one result is
    /// returned. A write timeout takes the link down; timeouts and a dropped
    /// waiter ask for a restart.
    pub fn finish_request(
        &mut self,
        request_id: &str,
        method: &str,
        outcome: RequestOutcome,
        emit_errors: bool,
    ) -> (r: RequestResolution)
        requires
            old(self).wf(),
        ensures
            final(self).wf(),
            !final(self).pending@.contains(request_id@),
            final(self).starting == old(self).starting,
            final(self).diagnostics.health == old(self).diagnostics.health,
            final(self).diagnostics.last_request_id == old(self).diagnostics.last_request_id,
            final(self).diagnostics.last_correlation_id == old(self).diagnostics.last_correlation_id,
            !(outcome is WriteTimeout) ==> final(self).pending@ == old(self).pending@.remove_value(
                request_id@,
            ) && final(self).connected == old(self).connected
                && final(self).diagnostics.ipc_state == old(self).diagnostics.ipc_state
                && r.rejected@.len() == 0,
            r.restart <==> (outcome is WriteTimeout || outcome is ResponseClosed
                || outcome is ResponseTimeout),
            r.result is Ok <==> outcome is Payload,
            outcome is Payload ==> final(self).diagnostics.last_error is None && r.ui_error is None,
            (outcome matches RequestOutcome::Failed(e) ==> {
                &&& r.result->Err_0@ == customer_safe_text(e.code)
                &&& final(self).diagnostics.last_error is Some
                &&& final(self).diagnostics.last_error->0@ == diagnostic_text(e)
                &&& (r.ui_error is Some <==> emit_errors)
                &&& (emit_errors ==> r.ui_error->0.code@ == e.code.wire()
                    && r.ui_error->0.message@ == customer_safe_text(e.code))
            }),
            outcome is PipeUnavailable ==> r.result->Err_0@ == "Pipe not available"@,
            outcome is WriterUnavailable ==> r.result->Err_0@ == "Pipe writer is not available"@,
            (outcome matches RequestOutcome::WriteFailed(m) ==> r.result->Err_0 == m),
            outcome is AckClosed ==> r.result->Err_0@ == "Pipe writer ack channel closed"@,
            outcome is ResponseClosed ==> r.result->Err_0@ == "IPC response channel closed"@,
            outcome is WriteTimeout ==> {
                &&& r.result->Err_0@ == "IPC pipe write timeout during "@ + method@
                &&& !final(self).connected
                &&& final(self).diagnostics.ipc_state == IpcConnectionState::Disconnected
                &&& final(self).pending@.len() == 0
                &&& strings_view(r.rejected@) == old(self).pending@.remove_value(request_id@)
                &&& strings_view(r.rejected@).no_duplicates()
                &&& r.ui_error is None
            },
            outcome is ResponseTimeout ==> {
                &&& r.result->Err_0@ == "Camera service is not responding. Please restart Boothy."@
                &&& (r.ui_error is Some <==> emit_errors)
                &&& (emit_errors ==> r.ui_error->0.code@ == "IPC_TIMEOUT"@)
            },
            (outcome is PipeUnavailable || outcome is WriterUnavailable || outcome is WriteFailed
                || outcome is AckClosed || outcome is WriteTimeout || outcome is ResponseClosed
                || outcome is ResponseTimeout) ==> final(self).diagnostics.last_error == Some(
                r.result->Err_0),
            !(outcome is Failed || outcome is ResponseTimeout) ==> r.ui_error is None,
    {
        match outcome {
            RequestOutcome::Payload => {
                self.pending.remove(request_id);
                self.diagnostics.last_error = None;
                RequestResolution { result: Ok(()), ui_error: None, restart: false, rejected: Vec::new() }
            },
            RequestOutcome::Failed(e) => {
                self.pending.remove(request_id);
                self.diagnostics.last_error = Some(e.diagnostic_message());
                let host = BoothyError::from_ipc_error(e);
                let message = host.message.clone();
                let ui_error = if emit_errors { Some(host) } else { None };
                RequestResolution { result: Err(message), ui_error, restart: false, rejected: Vec::new() }
            },
            RequestOutcome::PipeUnavailable => self.fail_request(request_id, owned("Pipe not available")),
            RequestOutcome::WriterUnavailable => self.fail_request(
                request_id,
                owned("Pipe writer is not available"),
            ),
            RequestOutcome::WriteFailed(m) => self.fail_request(request_id, m),
            RequestOutcome::AckClosed => self.fail_request(
                request_id,
                owned("Pipe writer ack channel closed"),
            ),
            RequestOutcome::WriteTimeout => {
                self.pending.remove(request_id);
                let mut message = owned("IPC pipe write timeout during ");
                message.append(method);
                self.diagnostics.last_error = Some(message.clone());
                self.connected = false;
                self.diagnostics.ipc_state = IpcConnectionState::Disconnected;
                let rejected = self.pending.drain();
                RequestResolution { result: Err(message), ui_error: None, restart: true, rejected }
            },
            RequestOutcome::ResponseClosed => {
                let mut r = self.fail_request(request_id, owned("IPC response channel closed"));
                r.restart = true;
                r
            },
            RequestOutcome::ResponseTimeout => {
                self.pending.remove(request_id);
                let timeout_error = ipc_errors::timeout(method);
                let message = timeout_error.message.clone();
                self.diagnostics.last_error = Some(message.clone());
                let ui_error = if emit_errors { Some(timeout_error) } else { None };
                RequestResolution { result: Err(message), ui_error, restart: true, rejected: Vec::new() }
            },
        }
    }

    /// Routes one incoming envelope. Responses and errors with a request id
    /// settle that id's pending entry; an error is recorded in diagnostics.
    pub fn handle_incoming(&mut self, message: IpcMessage) -> (r: IncomingAction)
        requires
            old(self).wf(),
        ensures
            final(self).wf(),
            final(self).connected == old(self).connected,
            final(self).starting == old(self).starting,
            final(self).diagnostics.ipc_state == old(self).diagnostics.ipc_state,
            final(self).diagnostics.health == old(self).diagnostics.health,
            message.message_type == IpcMessageType::Event ==> r is Event
                && final(self).pending@ == old(self).pending@,
            message.message_type == IpcMessageType::Request ==> r is UnexpectedRequest
                && final(self).pending@ == old(self).pending@,
            (message.message_type == IpcMessageType::Response || message.message_type
                == IpcMessageType::Error) && message.request_id is Some ==> {
                let id = message.request_id->0@;
                &&& final(self).pending@ == old(self).pending@.remove_value(id)
                &&& !final(self).pending@.contains(id)
                &&& (!old(self).pending@.contains(id) ==> r is NoWaiter)
            },
            message.message_type == IpcMessageType::Response && message.request_id is Some
                && old(self).pending@.contains(message.request_id->0@) ==> r is DeliverPayload,
            message.message_type == IpcMessageType::Response && message.request_id is None ==> r is MissingRequestId
                && final(self).pending@ == old(self).pending@,
            message.message_type == IpcMessageType::Error && message.request_id is Some
                && old(self).pending@.contains(message.request_id->0@) ==> {
                &&& r is DeliverError
                &&& (message.error is Some ==> r->DeliverError_0 == message.error->0)
                &&& (message.error is None ==> r->DeliverError_0.code == IpcErrorCode::Unknown
                    && r->DeliverError_0.message@ == "Unknown IPC error"@)
                &&& final(self).diagnostics.last_error is Some
                &&& final(self).diagnostics.last_error->0@ == diagnostic_text(r->DeliverError_0)
            },
            message.message_type == IpcMessageType::Error && message.request_id is None ==> {
                &&& final(self).pending@ == old(self).pending@
                &&& (message.error is None ==> r is Ignored)
                &&& (message.error is Some ==> r is EmitError
                    && final(self).diagnostics.last_error is Some
                    && final(self).diagnostics.last_error->0@ == diagnostic_text(message.error->0)
                    && r->EmitError_0.code@ == message.error->0.code.wire())
            },
    {
        match message.message_type {
            IpcMessageType::Event => IncomingAction::Event,
            IpcMessageType::Request => IncomingAction::UnexpectedRequest,
            IpcMessageType::Response => {
                match &message.request_id {
                    Some(id) => {
                        if self.pending.remove(id.as_str()) {
                            IncomingAction::DeliverPayload
                        } else {
                            IncomingAction::NoWaiter
                        }
                    },
                    None => IncomingAction::MissingRequestId,
                }
            },
            IpcMessageType::Error => {
                match &message.request_id {
                    Some(id) => {
                        if self.pending.remove(id.as_str()) {
                            let error = match message.error {
                                Some(e) => e,
                                None => IpcError {
                                    code: IpcErrorCode::Unknown,
                                    message: owned("Unknown IPC error"),
                                    context: None,
                                },
                            };
                            self.diagnostics.last_error = Some(error.diagnostic_message());
                            IncomingAction::DeliverError(error)
                        } else {
                            IncomingAction::NoWaiter
                        }
                    },
                    None => {
                        match message.error {
                            Some(e) => {
                                self.diagnostics.last_error = Some(e.diagnostic_message());
                                IncomingAction::EmitError(BoothyError::from_ipc_error(e))
                            },
                            None => IncomingAction::Ignored,
                        }
                    },
                }
            },
        }
    }

    /// The reader saw end-of-stream or a read error: every pending request is
    /// handed back for rejection, and a link that was up goes down with a
    /// disconnect error for the UI.
    pub fn reader_closed(&mut self) -> (r: LinkClosed)
        requires
            old(self).wf(),
        ensures
            final(self).wf(),
            !final(self).connected,
            final(self).pending@.len() == 0,
            strings_view(r.rejected@) == old(self).pending@,
            strings_view(r.rejected@).no_duplicates(),
            final(self).starting == old(self).starting,
            final(self).diagnostics.health == old(self).diagnostics.health,
            old(self).connected ==> {
                &&& final(self).diagnostics.ipc_state == IpcConnectionState::Disconnected
                &&& r.ui_error is Some
                &&& r.ui_error->0.code@ == "IPC_DISCONNECT"@
                &&& final(self).diagnostics.last_error is Some
                &&& final(self).diagnostics.last_error->0@
                    == "Camera service disconnected. Please restart Boothy."@
            },
            !old(self).connected ==> r.ui_error is None && final(self).diagnostics
                == old(self).diagnostics,
    {
        let rejected = self.pending.drain();
        if self.connected {
            self.connected = false;
            self.diagnostics.ipc_state = IpcConnectionState::Disconnected;
            let error = ipc_errors::disconnect();
            self.diagnostics.last_error = Some(error.message.clone());
            LinkClosed { rejected, ui_error: Some(error) }
        } else {
            LinkClosed { rejected, ui_error: None }
        }
    }

    /// A camera error event: recorded in diagnostics and turned into a host error.
    pub fn note_camera_error(&mut self, error: IpcError) -> (r: BoothyError)
        requires
            old(self).wf(),
        ensures
            final(self).wf(),
            final(self).connected == old(self).connected,
            final(self).pending@ == old(self).pending@,
            final(self).diagnostics.last_error is Some,
            final(self).diagnostics.last_error->0@ == diagnostic_text(error),
            r.code@ == error.code.wire(),
            r.message@ == customer_safe_text(error.code),
    {
        self.diagnostics.last_error = Some(error.diagnostic_message());
        BoothyError::from_ipc_error(error)
    }

    /// Feeds a status sample to the auto-restart rule.
    pub fn note_camera_status(&mut self, status: &CameraStatusResponse, now: u64) -> (r: CameraAutoRestartDecision)
        requires
            old(self).wf(),
        ensures
            final(self).wf(),
            (final(self).diagnostics.health, r) == restart_rule(
                old(self).diagnostics.ipc_state,
                old(self).diagnostics.health,
                status.connected,
                status.camera_detected,
                now,
            ),
            final(self).connected == old(self).connected,
            final(self).pending@ == old(self).pending@,
            final(self).diagnostics.ipc_state == old(self).diagnostics.ipc_state,
            final(self).diagnostics.last_error == old(self).diagnostics.last_error,
    {
        note_camera_status_internal(self.diagnostics.ipc_state, &mut self.diagnostics.health, status, now)
    }

    /// Claims the status monitor; false when one already runs.
    pub fn claim_status_monitor(&mut self) -> (r: bool)
        requires
            old(self).wf(),
        ensures
            final(self).wf(),
            r == !old(self).status_monitor_started,
            final(self).status_monitor_started,
            final(self).connected == old(self).connected,
            final(self).pending@ == old(self).pending@,
            final(self).diagnostics == old(self).diagnostics,
    {
        let was = self.status_monitor_started;
        self.status_monitor_started = true;
        !was
    }

    /// The status monitor exited.
    pub fn release_status_monitor(&mut self)
        requires
            old(self).wf(),
        ensures
            final(self).wf(),
            !final(self).status_monitor_started,
            final(self).connected == old(self).connected,
            final(self).pending@ == old(self).pending@,
            final(self).diagnostics == old(self).diagnostics,
    {
        self.status_monitor_started = false;
    }

    /// A copy of the diagnostics for the UI.
    pub fn diagnostics_snapshot(&self) -> (r: CameraDiagnosticsSnapshot)
        ensures
            r.ipc_state@ == self.diagnostics.ipc_state.name(),
            r.last_error == self.diagnostics.last_error,
            r.protocol_version@ == protocol_version_spec(),
            r.request_id == self.diagnostics.last_request_id,
            r.correlation_id == self.diagnostics.last_correlation_id,
    {
        CameraDiagnosticsSnapshot {
            ipc_state: owned(self.diagnostics.ipc_state.as_str()),
            last_error: clone_opt(&self.diagnostics.last_error),
            protocol_version: owned(IPC_PROTOCOL_VERSION),
            request_id: clone_opt(&self.diagnostics.last_request_id),
            correlation_id: clone_opt(&self.diagnostics.last_correlation_id),
        }
    }
}

pub fn clone_opt(s: &Option<String>) -> (r: Option<String>)
    ensures
        r == *s,
{
    match s {
        Some(x) => Some(x.clone()),
        None => None,
    }
}

/// Kinds of sidecar events by method name.
#[derive(Clone, Copy, Debug, PartialEq, Eq, Structural)]
pub enum SidecarEvent {
    PhotoTransferred,
    CaptureStarted,
    CameraError,
    StatusHint,
    StatusChanged,
    Unknown,
}

pub open spec fn event_of(method: Seq<char>) -> SidecarEvent {
    if method == "event.camera.photoTransferred"@ {
        SidecarEvent::PhotoTransferred
    } else if method == "event.camera.captureStarted"@ {
        SidecarEvent::CaptureStarted
    } else if method == "event.camera.error"@ {
        SidecarEvent::CameraError
    } else if method == "event.camera.statusHint"@ {
        SidecarEvent::StatusHint
    } else if method == "event.camera.statusChanged"@ {
        SidecarEvent::StatusChanged
    } else {
        SidecarEvent::Unknown
    }
}

/// Which event a method names.
pub fn classify_event(method: &str) -> (r: SidecarEvent)
    ensures
        r == event_of(method@),
{
    if str_equals(method, "event.camera.photoTransferred") {
        SidecarEvent::PhotoTransferred
    } else if str_equals(method, "event.camera.captureStarted") {
        SidecarEvent::CaptureStarted
    } else if str_equals(method, "event.camera.error") {
        SidecarEvent::CameraError
    } else if str_equals(method, "event.camera.statusHint") {
        SidecarEvent::StatusHint
    } else if str_equals(method, "event.camera.statusChanged") {
        SidecarEvent::StatusChanged
    } else {
        SidecarEvent::Unknown
    }
}

pub open spec fn host_event_of(e: SidecarEvent) -> Option<Seq<char>> {
    match e {
        SidecarEvent::PhotoTransferred => Some("boothy-photo-transferred"@),
        SidecarEvent::CaptureStarted => Some("boothy-capture-started"@),
        SidecarEvent::CameraError => Some("boothy-camera-error"@),
        SidecarEvent::StatusHint => Some("boothy-camera-status-hint"@),
        SidecarEvent::StatusChanged => Some("boothy-camera-status"@),
        SidecarEvent::Unknown => None,
    }
}

/// The UI event a sidecar event is forwarded as; none for unknown events.
pub fn host_event_name(e: SidecarEvent) -> (r: Option<&'static str>)
    ensures
        r is Some <==> host_event_of(e) is Some,
        r is Some ==> r->0@ == host_event_of(e)->0,
{
    match e {
        SidecarEvent::PhotoTransferred => Some("boothy-photo-transferred"),
        SidecarEvent::CaptureStarted => Some("boothy-capture-started"),
        SidecarEvent::CameraError => Some("boothy-camera-error"),
        SidecarEvent::StatusHint => Some("boothy-camera-status-hint"),
        SidecarEvent::StatusChanged => Some("boothy-camera-status"),
        SidecarEvent::Unknown => None,
    }
}

} // verus!

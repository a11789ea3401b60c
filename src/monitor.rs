//! Camera-health monitor: the auto-restart decision and the poll loop's
//! bookkeeping. Instants are milliseconds on one monotonic clock.

use vstd::prelude::*;

verus! {

/// Grace period after the sidecar connects during which "no camera" is expected.
pub const STARTUP_GRACE_MS: u64 = 10000;

/// Minimum spacing between two forced restarts.
pub const RESTART_THROTTLE_MS: u64 = 30000;

/// Streak and duration after which a camera seen before counts as lost.
pub const LOST_STREAK: u32 = 4;
pub const LOST_MS: u64 = 20000;

/// Streak and duration after which a camera never seen counts as missing.
pub const PROLONGED_STREAK: u32 = 8;
pub const PROLONGED_MS: u64 = 45000;

/// Connection state of the sidecar link.
#[derive(Clone, Copy, Debug, PartialEq, Eq, Structural)]
pub enum IpcConnectionState {
    Connected,
    Disconnected,
    Reconnecting,
}

impl IpcConnectionState {
    pub open spec fn name(self) -> Seq<char> {
        match self {
            IpcConnectionState::Connected => "connected"@,
            IpcConnectionState::Disconnected => "disconnected"@,
            IpcConnectionState::Reconnecting => "reconnecting"@,
        }
    }

    /// The lower-case name shown in diagnostics.
    pub fn as_str(&self) -> (r: &'static str)
        ensures
            r@ == self.name(),
    {
        proof {
            reveal_strlit("connected");
            reveal_strlit("disconnected");
            reveal_strlit("reconnecting");
        }
        match self {
            IpcConnectionState::Connected => "connected",
            IpcConnectionState::Disconnected => "disconnected",
            IpcConnectionState::Reconnecting => "reconnecting",
        }
    }
}

/// Why a forced restart was decided.
#[derive(Clone, Copy, Debug, PartialEq, Eq, Structural)]
pub enum CameraAutoRestartReason {
    LostAfterDetected,
    ProlongedNoCamera,
}

/// Outcome of one auto-restart decision.
#[derive(Clone, Copy, Debug, PartialEq, Eq, Structural)]
pub struct CameraAutoRestartDecision {
    pub should_restart: bool,
    pub reason: Option<CameraAutoRestartReason>,
}

/// Reply of `camera.getStatus`.
#[derive(Clone, Debug)]
pub struct CameraStatusResponse {
    pub connected: bool,
    pub camera_detected: bool,
    pub session_destination: Option<String>,
    pub camera_model: Option<String>,
}

/// Camera-health counters kept next to the connection diagnostics.
#[derive(Clone, Copy, Debug, PartialEq, Eq, Structural)]
pub struct CameraHealth {
    pub no_camera_streak: u32,
    pub no_camera_since: Option<u64>,
    pub last_camera_detected_at: Option<u64>,
    pub last_forced_restart_at: Option<u64>,
    pub sidecar_connected_at: Option<u64>,
}

/// Time from `since` to `now`, zero when `since` lies after `now`.
pub open spec fn elapsed(now: u64, since: u64) -> int {
    if now >= since { now - since } else { 0 }
}

pub open spec fn no_restart() -> CameraAutoRestartDecision {
    CameraAutoRestartDecision { should_restart: false, reason: None }
}

pub open spec fn restart_for(reason: CameraAutoRestartReason) -> CameraAutoRestartDecision {
    CameraAutoRestartDecision { should_restart: true, reason: Some(reason) }
}

/// The auto-restart rule: given the link state, the health counters, one
/// status sample and the time, the new counters and the decision.
pub open spec fn restart_rule(
    state: IpcConnectionState,
    h: CameraHealth,
    connected: bool,
    detected: bool,
    now: u64,
) -> (CameraHealth, CameraAutoRestartDecision) {
    if state == IpcConnectionState::Disconnected {
        (h, no_restart())
    } else if connected && detected {
        (CameraHealth {
            no_camera_streak: 0,
            no_camera_since: None,
            last_camera_detected_at: Some(now),
            ..h
        }, no_restart())
    } else if !connected {
        (CameraHealth { no_camera_streak: 0, no_camera_since: None, ..h }, no_restart())
    } else if h.sidecar_connected_at is Some
        && elapsed(now, h.sidecar_connected_at->0) < STARTUP_GRACE_MS {
        (CameraHealth { no_camera_streak: 0, no_camera_since: None, ..h }, no_restart())
    } else {
        let streak: u32 = if h.no_camera_streak == u32::MAX { u32::MAX } else {
            (h.no_camera_streak + 1) as u32
        };
        let since: u64 = match h.no_camera_since {
            Some(s) => s,
            None => now,
        };
        let counted = CameraHealth {
            no_camera_streak: streak,
            no_camera_since: Some(since),
            ..h
        };
        if h.last_forced_restart_at is Some
            && elapsed(now, h.last_forced_restart_at->0) < RESTART_THROTTLE_MS {
            (counted, no_restart())
        } else if h.last_camera_detected_at is Some && streak >= LOST_STREAK
            && elapsed(now, since) >= LOST_MS {
            (CameraHealth { last_forced_restart_at: Some(now), ..counted },
             restart_for(CameraAutoRestartReason::LostAfterDetected))
        } else if h.last_camera_detected_at is None && streak >= PROLONGED_STREAK
            && elapsed(now, since) >= PROLONGED_MS {
            (CameraHealth { last_forced_restart_at: Some(now), ..counted },
             restart_for(CameraAutoRestartReason::ProlongedNoCamera))
        } else {
            (counted, no_restart())
        }
    }
}

impl CameraHealth {
    /// Counters of a sidecar that has not connected yet.
    pub fn new() -> (r: CameraHealth)
        ensures
            r == (CameraHealth {
                no_camera_streak: 0,
                no_camera_since: None,
                last_camera_detected_at: None,
                last_forced_restart_at: None,
                sidecar_connected_at: None,
            }),
    {
        CameraHealth {
            no_camera_streak: 0,
            no_camera_since: None,
            last_camera_detected_at: None,
            last_forced_restart_at: None,
            sidecar_connected_at: None,
        }
    }
}

fn elapsed_ms(now: u64, since: u64) -> (r: u64)
    ensures
        r as int == elapsed(now, since),
{
    if now >= since { now - since } else { 0 }
}

/// Feeds one status sample into the auto-restart rule.
pub fn note_camera_status_internal(
    state: IpcConnectionState,
    health: &mut CameraHealth,
    status: &CameraStatusResponse,
    now: u64,
) -> (r: CameraAutoRestartDecision)
    ensures
        (*final(health), r) == restart_rule(state, *old(health), status.connected,
            status.camera_detected, now),
{
    if state == IpcConnectionState::Disconnected {
        return CameraAutoRestartDecision { should_restart: false, reason: None };
    }
    if status.connected && status.camera_detected {
        health.no_camera_streak = 0;
        health.no_camera_since = None;
        health.last_camera_detected_at = Some(now);
        return CameraAutoRestartDecision { should_restart: false, reason: None };
    }
    if !status.connected {
        health.no_camera_streak = 0;
        health.no_camera_since = None;
        return CameraAutoRestartDecision { should_restart: false, reason: None };
    }
    if let Some(connected_at) = health.sidecar_connected_at {
        if elapsed_ms(now, connected_at) < STARTUP_GRACE_MS {
            health.no_camera_streak = 0;
            health.no_camera_since = None;
            return CameraAutoRestartDecision { should_restart: false, reason: None };
        }
    }
    health.no_camera_streak = if health.no_camera_streak == u32::MAX {
        u32::MAX
    } else {
        health.no_camera_streak + 1
    };
    if health.no_camera_since.is_none() {
        health.no_camera_since = Some(now);
    }
    if let Some(last_restart) = health.last_forced_restart_at {
        if elapsed_ms(now, last_restart) < RESTART_THROTTLE_MS {
            return CameraAutoRestartDecision { should_restart: false, reason: None };
        }
    }
    let has_detected_before = health.last_camera_detected_at.is_some();
    let no_camera_ms = match health.no_camera_since {
        Some(since) => elapsed_ms(now, since),
        None => 0,
    };
    let decision = if has_detected_before && health.no_camera_streak >= LOST_STREAK
        && no_camera_ms >= LOST_MS {
        CameraAutoRestartDecision {
            should_restart: true,
            reason: Some(CameraAutoRestartReason::LostAfterDetected),
        }
    } else if !has_detected_before && health.no_camera_streak >= PROLONGED_STREAK
        && no_camera_ms >= PROLONGED_MS {
        CameraAutoRestartDecision {
            should_restart: true,
            reason: Some(CameraAutoRestartReason::ProlongedNoCamera),
        }
    } else {
        CameraAutoRestartDecision { should_restart: false, reason: None }
    };
    if decision.should_restart {
        health.last_forced_restart_at = Some(now);
    }
    decision
}

/// Poll period after a successful status poll, in seconds.
pub const POLL_INTERVAL_SECS: u64 = 5;

/// Longest wait between polls after failures, in seconds.
pub const POLL_BACKOFF_MAX_SECS: u64 = 30;

/// Bookkeeping of the status poll loop.
#[derive(Clone, Copy, Debug)]
pub struct StatusPollState {
    /// `(connected, cameraDetected)` of the last successful sample.
    pub last_observed: Option<(bool, bool)>,
    pub last_poll_had_error: bool,
    /// Seconds to sleep before the next poll.
    pub backoff_secs: u64,
}

impl StatusPollState {
    pub open spec fn wf(&self) -> bool {
        POLL_INTERVAL_SECS <= self.backoff_secs <= POLL_BACKOFF_MAX_SECS
    }

    pub fn new() -> (r: StatusPollState)
        ensures
            r.wf(),
            r.last_observed is None,
            !r.last_poll_had_error,
            r.backoff_secs == POLL_INTERVAL_SECS,
    {
        StatusPollState { last_observed: None, last_poll_had_error: false, backoff_secs: POLL_INTERVAL_SECS }
    }

    /// A poll succeeded; `sample` is the `(connected, cameraDetected)` pair
    /// when the payload could be read. Tells whether to emit a status hint:
    /// only when the pair differs from the last one seen.
    pub fn on_poll_success(&mut self, sample: Option<(bool, bool)>) -> (emit: bool)
        requires
            old(self).wf(),
        ensures
            final(self).wf(),
            !final(self).last_poll_had_error,
            final(self).backoff_secs == POLL_INTERVAL_SECS,
            emit == (sample is Some && old(self).last_observed != sample),
            final(self).last_observed == (if emit { sample } else { old(self).last_observed }),
    {
        self.last_poll_had_error = false;
        self.backoff_secs = POLL_INTERVAL_SECS;
        match sample {
            Some(pair) => {
                let changed = match self.last_observed {
                    Some(prev) => prev.0 != pair.0 || prev.1 != pair.1,
                    None => true,
                };
                if changed {
                    self.last_observed = Some(pair);
                }
                changed
            },
            None => false,
        }
    }

    /// A poll failed. Only the first failure of a run emits a hint and
    /// doubles the wait (up to the cap); later ones stay silent.
    pub fn on_poll_failure(&mut self) -> (emit: bool)
        requires
            old(self).wf(),
        ensures
            final(self).wf(),
            final(self).last_poll_had_error,
            final(self).last_observed == old(self).last_observed,
            emit == !old(self).last_poll_had_error,
            emit ==> final(self).backoff_secs == (if 2 * old(self).backoff_secs
                <= POLL_BACKOFF_MAX_SECS { 2 * old(self).backoff_secs } else {
                POLL_BACKOFF_MAX_SECS as int }),
            !emit ==> final(self).backoff_secs == old(self).backoff_secs,
    {
        if self.last_poll_had_error {
            return false;
        }
        self.last_poll_had_error = true;
        self.backoff_secs = if self.backoff_secs <= POLL_BACKOFF_MAX_SECS / 2 {
            self.backoff_secs * 2
        } else {
            POLL_BACKOFF_MAX_SECS
        };
        true
    }
}

/// The decision is a function of the link state, the counters, the sample and
/// the time; the time of the last forced restart changes only on a restart,
/// and then becomes the current time.
pub proof fn lemma_restart_rule_pure(
    state: IpcConnectionState,
    h1: CameraHealth,
    h2: CameraHealth,
    connected: bool,
    detected: bool,
    now: u64,
)
    requires
        h1 == h2,
    ensures
        restart_rule(state, h1, connected, detected, now)
            == restart_rule(state, h2, connected, detected, now),
        restart_rule(state, h1, connected, detected, now).1.should_restart ==> restart_rule(
            state, h1, connected, detected, now).0.last_forced_restart_at == Some(now),
        !restart_rule(state, h1, connected, detected, now).1.should_restart ==> restart_rule(
            state, h1, connected, detected, now).0.last_forced_restart_at
            == h1.last_forced_restart_at,
{
}

/// Runs the rule over a series of samples `(connected, detected, now)`.
pub open spec fn restart_run(
    state: IpcConnectionState,
    h: CameraHealth,
    samples: Seq<(bool, bool, u64)>,
) -> Seq<CameraAutoRestartDecision>
    decreases samples.len(),
{
    if samples.len() == 0 {
        Seq::empty()
    } else {
        let (next, d) = restart_rule(state, h, samples[0].0, samples[0].1, samples[0].2);
        seq![d].add(restart_run(state, next, samples.subrange(1, samples.len() as int)))
    }
}

pub open spec fn times_ordered(samples: Seq<(bool, bool, u64)>) -> bool {
    forall|i: int, j: int| 0 <= i <= j < samples.len() ==> samples[i].2 <= samples[j].2
}

proof fn lemma_run_len(state: IpcConnectionState, h: CameraHealth, samples: Seq<(bool, bool, u64)>)
    ensures
        restart_run(state, h, samples).len() == samples.len(),
    decreases samples.len(),
{
    if samples.len() > 0 {
        let (next, d) = restart_rule(state, h, samples[0].0, samples[0].1, samples[0].2);
        lemma_run_len(state, next, samples.subrange(1, samples.len() as int));
    }
}

/// When the last forced restart lies at or before the first sample, no
/// restart within the throttle window after it, and the final counters keep
/// or advance that time.
proof fn lemma_run_throttled(
    state: IpcConnectionState,
    h: CameraHealth,
    samples: Seq<(bool, bool, u64)>,
    t: u64,
)
    requires
        times_ordered(samples),
        h.last_forced_restart_at == Some(t),
        samples.len() > 0 ==> t <= samples[0].2,
    ensures
        restart_run(state, h, samples).len() == samples.len(),
        forall|j: int| 0 <= j < samples.len() && samples[j].2 < t + RESTART_THROTTLE_MS
            ==> !(#[trigger] restart_run(state, h, samples)[j]).should_restart,
    decreases samples.len(),
{
    lemma_run_len(state, h, samples);
    if samples.len() > 0 {
        let (next, d) = restart_rule(state, h, samples[0].0, samples[0].1, samples[0].2);
        let rest = samples.subrange(1, samples.len() as int);
        lemma_run_len(state, next, rest);
        if d.should_restart {
            assert(samples[0].2 >= t + RESTART_THROTTLE_MS);
            assert(next.last_forced_restart_at == Some(samples[0].2));
            if rest.len() > 0 {
                assert(rest[0] == samples[1]);
            }
            lemma_run_throttled(state, next, rest, samples[0].2);
            assert forall|j: int| 0 <= j < samples.len() && samples[j].2 < t + RESTART_THROTTLE_MS
                implies !(#[trigger] restart_run(state, h, samples)[j]).should_restart by {
                if j == 0 {
                } else {
                    assert(samples[j] == rest[j - 1]);
                    assert(samples[0].2 <= samples[j].2);
                    assert(restart_run(state, h, samples)[j] == restart_run(state, next, rest)[j - 1]);
                }
            }
        } else {
            assert(next.last_forced_restart_at == Some(t));
            if rest.len() > 0 {
                assert(rest[0] == samples[1]);
            }
            lemma_run_throttled(state, next, rest, t);
            assert forall|j: int| 0 <= j < samples.len() && samples[j].2 < t + RESTART_THROTTLE_MS
                implies !(#[trigger] restart_run(state, h, samples)[j]).should_restart by {
                if j > 0 {
                    assert(samples[j] == rest[j - 1]);
                    assert(restart_run(state, h, samples)[j] == restart_run(state, next, rest)[j - 1]);
                }
            }
        }
    }
}

/// Over any series of samples taken at non-decreasing times, two restart
/// decisions lie at least the throttle window apart.
pub proof fn lemma_restart_throttle(
    state: IpcConnectionState,
    h: CameraHealth,
    samples: Seq<(bool, bool, u64)>,
    i: int,
    j: int,
)
    requires
        times_ordered(samples),
        0 <= i < j < samples.len(),
        restart_run(state, h, samples)[i].should_restart,
        restart_run(state, h, samples)[j].should_restart,
    ensures
        samples[j].2 >= samples[i].2 + RESTART_THROTTLE_MS,
    decreases samples.len(),
{
    lemma_run_len(state, h, samples);
    let (next, d) = restart_rule(state, h, samples[0].0, samples[0].1, samples[0].2);
    let rest = samples.subrange(1, samples.len() as int);
    lemma_run_len(state, next, rest);
    assert(restart_run(state, h, samples)[j] == restart_run(state, next, rest)[j - 1]);
    assert(samples[j] == rest[j - 1]);
    if i == 0 {
        assert(next.last_forced_restart_at == Some(samples[0].2));
        if rest.len() > 0 {
            assert(rest[0] == samples[1]);
        }
        lemma_run_throttled(state, next, rest, samples[0].2);
        assert(restart_run(state, next, rest)[j - 1].should_restart);
    } else {
        assert(restart_run(state, h, samples)[i] == restart_run(state, next, rest)[i - 1]);
        assert(samples[i] == rest[i - 1]);
        lemma_restart_throttle(state, next, rest, i - 1, j - 1);
    }
}

} // verus!

//! Storage health of the session drive: classification of a free-space
//! sample against the warning and critical thresholds, the payload shown to
//! the UI, and what a change of status asks of the export queue.

use vstd::prelude::*;
use crate::strings::owned;

verus! {

#[derive(Clone, Copy, Debug, PartialEq, Eq, Structural)]
pub enum StorageHealthStatus {
    Healthy,
    Warning,
    Critical,
    Unknown,
}

/// One free-space sample.
#[derive(Clone, Copy, Debug, PartialEq, Eq, Structural)]
pub struct DiskSpaceSample {
    pub free_bytes: u64,
    pub total_bytes: u64,
}

#[derive(Clone, Copy, Debug, PartialEq, Eq, Structural)]
pub struct StorageHealthSettings {
    pub enabled: bool,
    pub warning_threshold_bytes: u64,
    pub critical_threshold_bytes: u64,
    pub poll_interval_seconds: u64,
}

/// What the UI is told.
#[derive(Clone, Debug)]
pub struct StorageHealthPayload {
    pub status: StorageHealthStatus,
    pub free_bytes: u64,
    pub total_bytes: u64,
    pub warning_threshold_bytes: u64,
    pub critical_threshold_bytes: u64,
    /// ISO-8601 UTC time of the sample.
    pub sampled_at: String,
    pub diagnostic: Option<String>,
}

pub open spec fn classify(free: u64, warning: u64, critical: u64) -> StorageHealthStatus {
    if free <= critical {
        StorageHealthStatus::Critical
    } else if free <= warning {
        StorageHealthStatus::Warning
    } else {
        StorageHealthStatus::Healthy
    }
}

/// Critical at or below the critical threshold, warning at or below the
/// warning threshold, healthy above.
pub fn classify_storage_status(free_bytes: u64, warning_threshold_bytes: u64, critical_threshold_bytes: u64)
    -> (r: StorageHealthStatus)
    ensures
        r == classify(free_bytes, warning_threshold_bytes, critical_threshold_bytes),
{
    if free_bytes <= critical_threshold_bytes {
        StorageHealthStatus::Critical
    } else if free_bytes <= warning_threshold_bytes {
        StorageHealthStatus::Warning
    } else {
        StorageHealthStatus::Healthy
    }
}

/// The status of a sample under the settings; unknown without a sample.
pub fn status_from_sample(sample: Option<&DiskSpaceSample>, settings: &StorageHealthSettings) -> (r: StorageHealthStatus)
    ensures
        sample is None ==> r == StorageHealthStatus::Unknown,
        sample is Some ==> r == classify(
            sample->0.free_bytes,
            settings.warning_threshold_bytes,
            settings.critical_threshold_bytes,
        ),
{
    match sample {
        Some(s) => classify_storage_status(s.free_bytes, settings.warning_threshold_bytes, settings.critical_threshold_bytes),
        None => StorageHealthStatus::Unknown,
    }
}

impl StorageHealthSettings {
    /// Settings from optional configured values: zero or missing values take
    /// the defaults, monitoring is on unless disabled, and the warning
    /// threshold is raised to the critical one when below it.
    pub fn from_settings(
        enabled: Option<bool>,
        warning_threshold_bytes: Option<u64>,
        critical_threshold_bytes: Option<u64>,
        poll_interval_seconds: Option<u64>,
        defaults: &StorageHealthSettings,
    ) -> (r: StorageHealthSettings)
        ensures
            r.enabled == (match enabled { Some(b) => b, None => true }),
            r.critical_threshold_bytes == (match critical_threshold_bytes {
                Some(v) => if v > 0 { v } else { defaults.critical_threshold_bytes },
                None => defaults.critical_threshold_bytes,
            }),
            ({
                let w = match warning_threshold_bytes {
                    Some(v) => if v > 0 { v } else { defaults.warning_threshold_bytes },
                    None => defaults.warning_threshold_bytes,
                };
                r.warning_threshold_bytes == if w < r.critical_threshold_bytes {
                    r.critical_threshold_bytes
                } else {
                    w
                }
            }),
            r.poll_interval_seconds == (match poll_interval_seconds {
                Some(v) => if v > 0 { v } else { defaults.poll_interval_seconds },
                None => defaults.poll_interval_seconds,
            }),
    {
        let mut warning = match warning_threshold_bytes {
            Some(v) => if v > 0 { v } else { defaults.warning_threshold_bytes },
            None => defaults.warning_threshold_bytes,
        };
        let critical = match critical_threshold_bytes {
            Some(v) => if v > 0 { v } else { defaults.critical_threshold_bytes },
            None => defaults.critical_threshold_bytes,
        };
        let poll = match poll_interval_seconds {
            Some(v) => if v > 0 { v } else { defaults.poll_interval_seconds },
            None => defaults.poll_interval_seconds,
        };
        let on = match enabled {
            Some(b) => b,
            None => true,
        };
        if warning < critical {
            warning = critical;
        }
        StorageHealthSettings {
            enabled: on,
            warning_threshold_bytes: warning,
            critical_threshold_bytes: critical,
            poll_interval_seconds: poll,
        }
    }
}

impl StorageHealthPayload {
    /// A payload of unknown status carrying the thresholds.
    pub fn unknown_with_thresholds(
        warning_threshold_bytes: u64,
        critical_threshold_bytes: u64,
        diagnostic: Option<String>,
        sampled_at: String,
    ) -> (r: StorageHealthPayload)
        ensures
            r == (StorageHealthPayload {
                status: StorageHealthStatus::Unknown,
                free_bytes: 0,
                total_bytes: 0,
                warning_threshold_bytes,
                critical_threshold_bytes,
                sampled_at,
                diagnostic,
            }),
    {
        StorageHealthPayload {
            status: StorageHealthStatus::Unknown,
            free_bytes: 0,
            total_bytes: 0,
            warning_threshold_bytes,
            critical_threshold_bytes,
            sampled_at,
            diagnostic,
        }
    }
}

/// The payload for one round of monitoring: unknown when monitoring is
/// disabled or sampling failed (with the reason), else the classified sample.
pub fn build_payload(
    settings: &StorageHealthSettings,
    sample: Result<DiskSpaceSample, String>,
    sampled_at: String,
) -> (r: StorageHealthPayload)
    ensures
        r.warning_threshold_bytes == settings.warning_threshold_bytes,
        r.critical_threshold_bytes == settings.critical_threshold_bytes,
        r.sampled_at == sampled_at,
        !settings.enabled ==> r.status == StorageHealthStatus::Unknown && r.diagnostic is Some
            && r.diagnostic->0@ == "storage health disabled"@,
        settings.enabled && sample is Err ==> r.status == StorageHealthStatus::Unknown
            && r.diagnostic == Some(sample->Err_0),
        settings.enabled && sample is Ok ==> {
            &&& r.status == classify(sample->Ok_0.free_bytes, settings.warning_threshold_bytes,
                settings.critical_threshold_bytes)
            &&& r.free_bytes == sample->Ok_0.free_bytes
            &&& r.total_bytes == sample->Ok_0.total_bytes
            &&& r.diagnostic is None
        },
{
    if !settings.enabled {
        return StorageHealthPayload::unknown_with_thresholds(
            settings.warning_threshold_bytes,
            settings.critical_threshold_bytes,
            Some(owned("storage health disabled")),
            sampled_at,
        );
    }
    match sample {
        Ok(s) => StorageHealthPayload {
            status: status_from_sample(Some(&s), settings),
            free_bytes: s.free_bytes,
            total_bytes: s.total_bytes,
            warning_threshold_bytes: settings.warning_threshold_bytes,
            critical_threshold_bytes: settings.critical_threshold_bytes,
            sampled_at,
            diagnostic: None,
        },
        Err(e) => StorageHealthPayload::unknown_with_thresholds(
            settings.warning_threshold_bytes,
            settings.critical_threshold_bytes,
            Some(e),
            sampled_at,
        ),
    }
}

/// The latest payload of the monitor.
#[derive(Clone, Debug)]
pub struct StorageHealthState {
    pub latest_payload: StorageHealthPayload,
}

impl StorageHealthState {
    pub fn new(initial: StorageHealthPayload) -> (r: StorageHealthState)
        ensures
            r.latest_payload == initial,
    {
        StorageHealthState { latest_payload: initial }
    }

    /// Stores a new payload and returns the previous status.
    pub fn update_latest_payload(&mut self, payload: StorageHealthPayload) -> (r: StorageHealthStatus)
        ensures
            r == old(self).latest_payload.status,
            final(self).latest_payload == payload,
    {
        let previous = self.latest_payload.status;
        self.latest_payload = payload;
        previous
    }

    pub fn is_critical(&self) -> (r: bool)
        ensures
            r == (self.latest_payload.status == StorageHealthStatus::Critical),
    {
        self.latest_payload.status == StorageHealthStatus::Critical
    }
}

/// What a change of storage status asks of the background export queue.
#[derive(Clone, Copy, Debug, PartialEq, Eq, Structural)]
pub enum StorageTransition {
    /// Nothing changed.
    Unchanged,
    /// Entering critical: lock the queue out, pause it and cancel its job.
    EnterLockout,
    /// Leaving critical: lift the lockout and resume the queue when no
    /// interactive export runs.
    LeaveLockout,
    /// Another change that does not concern the queue.
    Other,
}

pub fn storage_transition(previous: StorageHealthStatus, new: StorageHealthStatus) -> (r: StorageTransition)
    ensures
        previous == new ==> r == StorageTransition::Unchanged,
        previous != new && new == StorageHealthStatus::Critical ==> r == StorageTransition::EnterLockout,
        previous != new && new != StorageHealthStatus::Critical && previous == StorageHealthStatus::Critical
            ==> r == StorageTransition::LeaveLockout,
        previous != new && new != StorageHealthStatus::Critical && previous != StorageHealthStatus::Critical
            ==> r == StorageTransition::Other,
{
    if previous == new {
        StorageTransition::Unchanged
    } else if new == StorageHealthStatus::Critical {
        StorageTransition::EnterLockout
    } else if previous == StorageHealthStatus::Critical {
        StorageTransition::LeaveLockout
    } else {
        StorageTransition::Other
    }
}

} // verus!

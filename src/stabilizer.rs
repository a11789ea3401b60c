//! File-arrival stabilization: the per-path poll state machine that waits
//! until a file stops growing, is old enough and can be opened, and the set
//! of paths whose stabilization is in flight. The caller probes the file
//! system, sleeps, and reports each probe.

use vstd::prelude::*;
use crate::keyset::{KeySet, strings_view};

verus! {

/// Timing of the stability check.
#[derive(Clone, Copy, Debug, PartialEq, Eq, Structural)]
pub struct StabilizationConfig {
    /// Pause between two probes, in milliseconds.
    pub poll_interval_ms: u64,
    /// Consecutive equal sizes needed before the open check.
    pub stable_count_required: u32,
    /// Give up after this long, in milliseconds.
    pub max_wait_ms: u64,
    /// Files modified more recently than this are too new, in milliseconds.
    pub min_age_ms: u64,
}

impl Default for StabilizationConfig {
    fn default() -> (r: StabilizationConfig)
        ensures
            r.poll_interval_ms == 200,
            r.stable_count_required == 3,
            r.max_wait_ms == 10000,
            r.min_age_ms == 500,
    {
        StabilizationConfig {
            poll_interval_ms: 200,
            stable_count_required: 3,
            max_wait_ms: 10000,
            min_age_ms: 500,
        }
    }
}

/// How a stabilization ended.
#[derive(Clone, Debug, PartialEq, Eq)]
pub enum StabilizationResult {
    Stable { path: String, size: u64 },
    Timeout { path: String },
    NotFound { path: String },
    Locked { path: String },
}

/// What one probe of the file found.
#[derive(Clone, Copy, Debug, PartialEq, Eq, Structural)]
pub enum FileProbe {
    /// The path does not exist.
    Missing,
    /// It exists but its metadata could not be read.
    MetadataUnavailable,
    /// Its size, and its age in milliseconds when the modification time is
    /// known and not in the future.
    Present { size: u64, age_ms: Option<u64> },
}

/// What the caller does after a report.
#[derive(Clone, Debug)]
pub enum StabilityStep {
    /// Sleep `poll_interval_ms`, then probe again.
    Sleep,
    /// Try to open the file for reading and report with `open_result`.
    TryOpen,
    /// Finished.
    Done(StabilizationResult),
}

/// Poll state of one path.
#[derive(Clone, Debug)]
pub struct StabilityTracker {
    pub path: String,
    pub stable_checks: u32,
    pub last_size: Option<u64>,
    pub locked_detected: bool,
    /// Size seen when the open check was asked for.
    pub awaiting_open: Option<u64>,
}

/// Abstract outcome of a report, without the path.
#[derive(Clone, Copy, Debug, PartialEq, Eq, Structural)]
pub enum StepKind {
    Sleep,
    TryOpen,
    Stable(u64),
    Timeout,
    NotFound,
    Locked,
}

/// Poll counters: stable checks, last size, lock seen, size awaiting open.
pub type Counters = (u32, Option<u64>, bool, Option<u64>);

pub open spec fn counters(t: StabilityTracker) -> Counters {
    (t.stable_checks, t.last_size, t.locked_detected, t.awaiting_open)
}

/// One probe taken `elapsed_ms` after the start.
pub open spec fn observe_rule(c: Counters, cfg: StabilizationConfig, elapsed_ms: u64, probe: FileProbe)
    -> (Counters, StepKind)
{
    let (checks, last, locked, awaiting) = c;
    if elapsed_ms >= cfg.max_wait_ms {
        (c, if locked { StepKind::Locked } else { StepKind::Timeout })
    } else {
        match probe {
            FileProbe::Missing => (c, StepKind::NotFound),
            FileProbe::MetadataUnavailable => (c, StepKind::Sleep),
            FileProbe::Present { size, age_ms } => {
                if age_ms is Some && age_ms->0 < cfg.min_age_ms {
                    (c, StepKind::Sleep)
                } else if last == Some(size) {
                    let n: u32 = if checks == u32::MAX { u32::MAX } else { (checks + 1) as u32 };
                    if n >= cfg.stable_count_required {
                        ((n, last, locked, Some(size)), StepKind::TryOpen)
                    } else {
                        ((n, Some(size), locked, None), StepKind::Sleep)
                    }
                } else {
                    ((0, Some(size), locked, None), StepKind::Sleep)
                }
            },
        }
    }
}

/// The result of the open check asked for at size `size`.
pub open spec fn open_rule(c: Counters, size: u64, opened: bool) -> (Counters, StepKind) {
    let (checks, last, locked, awaiting) = c;
    if opened {
        ((checks, last, locked, None), StepKind::Stable(size))
    } else {
        ((0, Some(size), true, None), StepKind::Sleep)
    }
}

pub open spec fn step_matches(r: StabilityStep, k: StepKind, path: String) -> bool {
    match k {
        StepKind::Sleep => r is Sleep,
        StepKind::TryOpen => r is TryOpen,
        StepKind::Stable(size) => r == StabilityStep::Done(StabilizationResult::Stable { path, size }),
        StepKind::Timeout => r == StabilityStep::Done(StabilizationResult::Timeout { path }),
        StepKind::NotFound => r == StabilityStep::Done(StabilizationResult::NotFound { path }),
        StepKind::Locked => r == StabilityStep::Done(StabilizationResult::Locked { path }),
    }
}

impl StabilityTracker {
    pub fn new(path: String) -> (r: StabilityTracker)
        ensures
            r.path == path,
            counters(r) == (0u32, None::<u64>, false, None::<u64>),
    {
        StabilityTracker { path, stable_checks: 0, last_size: None, locked_detected: false, awaiting_open: None }
    }

    /// Reports one probe taken `elapsed_ms` after the start (see `observe_rule`).
    pub fn observe(&mut self, config: &StabilizationConfig, elapsed_ms: u64, probe: FileProbe) -> (r: StabilityStep)
        ensures
            final(self).path == old(self).path,
            ({
                let (c, k) = observe_rule(counters(*old(self)), *config, elapsed_ms, probe);
                counters(*final(self)) == c && step_matches(r, k, old(self).path)
            }),
    {
        if elapsed_ms >= config.max_wait_ms {
            let path = self.path.clone();
            return if self.locked_detected {
                StabilityStep::Done(StabilizationResult::Locked { path })
            } else {
                StabilityStep::Done(StabilizationResult::Timeout { path })
            };
        }
        match probe {
            FileProbe::Missing => StabilityStep::Done(StabilizationResult::NotFound { path: self.path.clone() }),
            FileProbe::MetadataUnavailable => StabilityStep::Sleep,
            FileProbe::Present { size, age_ms } => {
                if let Some(age) = age_ms {
                    if age < config.min_age_ms {
                        return StabilityStep::Sleep;
                    }
                }
                if self.last_size == Some(size) {
                    self.stable_checks = if self.stable_checks == u32::MAX {
                        u32::MAX
                    } else {
                        self.stable_checks + 1
                    };
                    if self.stable_checks >= config.stable_count_required {
                        self.awaiting_open = Some(size);
                        return StabilityStep::TryOpen;
                    }
                } else {
                    self.stable_checks = 0;
                }
                self.last_size = Some(size);
                self.awaiting_open = None;
                StabilityStep::Sleep
            },
        }
    }

    /// Reports the open check that `observe` asked for.
    pub fn open_result(&mut self, opened: bool) -> (r: StabilityStep)
        requires
            old(self).awaiting_open is Some,
        ensures
            final(self).path == old(self).path,
            ({
                let (c, k) = open_rule(counters(*old(self)), old(self).awaiting_open->0, opened);
                counters(*final(self)) == c && step_matches(r, k, old(self).path)
            }),
    {
        let size = match self.awaiting_open {
            Some(s) => s,
            None => 0,
        };
        self.awaiting_open = None;
        if opened {
            StabilityStep::Done(StabilizationResult::Stable { path: self.path.clone(), size })
        } else {
            self.locked_detected = true;
            self.stable_checks = 0;
            self.last_size = Some(size);
            StabilityStep::Sleep
        }
    }
}

/// What to do once a path's stabilization has ended.
#[derive(Clone, Copy, Debug, PartialEq, Eq, Structural)]
pub enum IngestAction {
    /// Apply the current preset, announce `new-photo` with this size, enqueue for export.
    Import { size: u64 },
    /// Emit `import-error`: the file never settled.
    TimeoutError,
    /// Emit `import-error`: the file stayed locked.
    LockedError,
    /// Warn only: the file went away.
    WarnNotFound,
}

pub open spec fn ingest_action_of(r: StabilizationResult) -> IngestAction {
    match r {
        StabilizationResult::Stable { size, .. } => IngestAction::Import { size },
        StabilizationResult::Timeout { .. } => IngestAction::TimeoutError,
        StabilizationResult::Locked { .. } => IngestAction::LockedError,
        StabilizationResult::NotFound { .. } => IngestAction::WarnNotFound,
    }
}

/// Text of the `import-error` event for an action, if it has one.
pub open spec fn import_error_text(a: IngestAction) -> Option<Seq<char>> {
    match a {
        IngestAction::TimeoutError => Some("File stabilization timeout"@),
        IngestAction::LockedError => Some("File is locked"@),
        _ => None,
    }
}

pub fn import_error_message(a: IngestAction) -> (r: Option<&'static str>)
    ensures
        r is Some <==> import_error_text(a) is Some,
        r is Some ==> r->0@ == import_error_text(a)->0,
{
    match a {
        IngestAction::TimeoutError => Some("File stabilization timeout"),
        IngestAction::LockedError => Some("File is locked"),
        _ => None,
    }
}

/// The paths being stabilized, and the configuration new checks use.
#[derive(Debug)]
pub struct FileArrivalWatcherInner {
    pub stabilization_config: StabilizationConfig,
    pub pending_imports: KeySet,
}

impl FileArrivalWatcherInner {
    pub open spec fn wf(&self) -> bool {
        self.pending_imports.wf()
    }

    pub fn new() -> (r: FileArrivalWatcherInner)
        ensures
            r.wf(),
            r.pending_imports@.len() == 0,
            r.stabilization_config == (StabilizationConfig {
                poll_interval_ms: 200,
                stable_count_required: 3,
                max_wait_ms: 10000,
                min_age_ms: 500,
            }),
    {
        FileArrivalWatcherInner {
            stabilization_config: StabilizationConfig::default(),
            pending_imports: KeySet::new(),
        }
    }

    /// A file arrived. Starts its stabilization unless one is in flight for
    /// the same path; tells whether it started.
    pub fn handle_photo_transferred(&mut self, path: &str) -> (started: bool)
        requires
            old(self).wf(),
        ensures
            final(self).wf(),
            started == !old(self).pending_imports@.contains(path@),
            final(self).pending_imports@.contains(path@),
            started ==> final(self).pending_imports@ == old(self).pending_imports@.push(path@),
            !started ==> final(self).pending_imports@ == old(self).pending_imports@,
            final(self).stabilization_config == old(self).stabilization_config,
    {
        self.pending_imports.insert(path)
    }

    /// A stabilization ended, whatever its result: the path leaves the
    /// pending set, and the result says what to do next.
    pub fn finish_stabilization(&mut self, path: &str, result: &StabilizationResult) -> (r: IngestAction)
        requires
            old(self).wf(),
        ensures
            final(self).wf(),
            !final(self).pending_imports@.contains(path@),
            final(self).pending_imports@ == old(self).pending_imports@.remove_value(path@),
            r == ingest_action_of(*result),
            final(self).stabilization_config == old(self).stabilization_config,
    {
        self.pending_imports.remove(path);
        match result {
            StabilizationResult::Stable { size, .. } => IngestAction::Import { size: *size },
            StabilizationResult::Timeout { .. } => IngestAction::TimeoutError,
            StabilizationResult::Locked { .. } => IngestAction::LockedError,
            StabilizationResult::NotFound { .. } => IngestAction::WarnNotFound,
        }
    }

    /// The paths in flight, oldest first.
    pub fn get_pending_imports(&self) -> (r: Vec<String>)
        ensures
            strings_view(r@) == self.pending_imports@,
    {
        self.pending_imports.to_vec()
    }

    pub fn set_stabilization_config(&mut self, config: StabilizationConfig)
        ensures
            final(self).stabilization_config == config,
            final(self).pending_imports@ == old(self).pending_imports@,
            final(self).pending_imports.wf() == old(self).pending_imports.wf(),
    {
        self.stabilization_config = config;
    }
}

} // verus!

//! The background export queue: a deduplicated FIFO of jobs handled one at
//! a time, pausable and cancellable, and the decision taken for each job.
//! The worker task, its waits and the export pipeline live with the caller.

use vstd::prelude::*;
use crate::keyset::{KeySet, strings_view};
use crate::paths::is_sep;
use crate::strings::starts_with;
use vstd::string::*;

verus! {

/// One raw file to develop in the background.
#[derive(Clone, Debug)]
pub struct BackgroundExportJob {
    /// Absolute path; its text is the dedup key.
    pub path: String,
    pub correlation_id: String,
    /// ISO-8601 UTC time of the enqueue.
    pub received_at: String,
}

pub open spec fn job_keys(q: Seq<BackgroundExportJob>) -> Seq<Seq<char>> {
    q.map_values(|j: BackgroundExportJob| j.path@)
}

pub open spec fn inflight_keys(k: Option<String>) -> Seq<Seq<char>> {
    match k {
        Some(s) => seq![s@],
        None => Seq::empty(),
    }
}

/// Queue state shared by the worker and the controls.
#[derive(Debug)]
pub struct BackgroundExportQueue {
    pub queue: Vec<BackgroundExportJob>,
    pub pending_keys: KeySet,
    /// Key of the job being processed.
    pub inflight: Option<String>,
    pub paused: bool,
    pub cancel_requested: bool,
}

impl BackgroundExportQueue {
    /// The pending keys are exactly the in-flight key followed by the queued
    /// jobs' keys, with no key twice.
    pub open spec fn wf(&self) -> bool {
        &&& self.pending_keys.wf()
        &&& self.pending_keys@ == inflight_keys(self.inflight) + job_keys(self.queue@)
    }

    pub fn new() -> (r: BackgroundExportQueue)
        ensures
            r.wf(),
            r.queue@.len() == 0,
            r.pending_keys@.len() == 0,
            r.inflight is None,
            !r.paused,
            !r.cancel_requested,
    {
        let r = BackgroundExportQueue {
            queue: Vec::new(),
            pending_keys: KeySet::new(),
            inflight: None,
            paused: false,
            cancel_requested: false,
        };
        assert(inflight_keys(r.inflight) + job_keys(r.queue@) =~= Seq::<Seq<char>>::empty());
        r
    }

    /// Queues a job unless its path is already queued or in flight; tells
    /// whether it was queued.
    pub fn enqueue(&mut self, path: String, correlation_id: String, received_at: String) -> (queued: bool)
        requires
            old(self).wf(),
        ensures
            final(self).wf(),
            queued == !old(self).pending_keys@.contains(path@),
            final(self).pending_keys@.contains(path@),
            queued ==> final(self).queue@ == old(self).queue@.push(
                BackgroundExportJob { path, correlation_id, received_at },
            ) && final(self).pending_keys@ == old(self).pending_keys@.push(path@),
            !queued ==> final(self).queue@ == old(self).queue@
                && final(self).pending_keys@ == old(self).pending_keys@,
            final(self).inflight == old(self).inflight,
            final(self).paused == old(self).paused,
            final(self).cancel_requested == old(self).cancel_requested,
    {
        if !self.pending_keys.insert(path.as_str()) {
            return false;
        }
        self.queue.push(BackgroundExportJob { path, correlation_id, received_at });
        assert(job_keys(self.queue@) =~= job_keys(old(self).queue@).push(self.queue@.last().path@));
        assert(self.pending_keys@ =~= inflight_keys(self.inflight) + job_keys(self.queue@));
        true
    }

    /// The worker's next job: the oldest queued one, unless the queue is
    /// paused or a job is already in flight.
    pub fn next_job(&mut self) -> (r: Option<BackgroundExportJob>)
        requires
            old(self).wf(),
        ensures
            final(self).wf(),
            r is Some <==> (!old(self).paused && old(self).inflight is None && old(self).queue@.len() > 0),
            r is Some ==> {
                &&& r->0 == old(self).queue@[0]
                &&& final(self).queue@ == old(self).queue@.subrange(1, old(self).queue@.len() as int)
                &&& final(self).inflight is Some
                &&& final(self).inflight->0@ == r->0.path@
            },
            r is None ==> final(self).queue@ == old(self).queue@ && final(self).inflight == old(self).inflight,
            final(self).pending_keys@ == old(self).pending_keys@,
            final(self).paused == old(self).paused,
            final(self).cancel_requested == old(self).cancel_requested,
    {
        if self.paused || self.inflight.is_some() || self.queue.len() == 0 {
            return None;
        }
        let job = self.queue.remove(0);
        self.inflight = Some(job.path.clone());
        assert(job_keys(old(self).queue@) =~= seq![job.path@] + job_keys(self.queue@));
        assert(self.pending_keys@ =~= inflight_keys(self.inflight) + job_keys(self.queue@));
        Some(job)
    }

    /// The in-flight job finished, successfully or not: nothing is in
    /// flight, the cancel request is cleared and its key leaves the pending set.
    pub fn finish_job(&mut self)
        requires
            old(self).wf(),
        ensures
            final(self).wf(),
            final(self).inflight is None,
            !final(self).cancel_requested,
            final(self).queue@ == old(self).queue@,
            final(self).pending_keys@ == job_keys(old(self).queue@),
            old(self).inflight is Some ==> !final(self).pending_keys@.contains(old(self).inflight->0@)
                && final(self).pending_keys@ == old(self).pending_keys@.remove_value(old(self).inflight->0@),
            final(self).paused == old(self).paused,
    {
        self.cancel_requested = false;
        match self.inflight.take() {
            Some(key) => {
                let ghost before = self.pending_keys@;
                self.pending_keys.remove(key.as_str());
                proof {
                    assert(before[0] == key@);
                    before.index_of_first_ensures(key@);
                    assert(before.index_of_first(key@) == Some(0int));
                    assert(before.remove(0) =~= job_keys(self.queue@));
                }
            },
            None => {
                assert(inflight_keys(None) + job_keys(self.queue@) =~= job_keys(self.queue@));
            },
        }
    }

    pub fn pause(&mut self)
        ensures
            final(self).paused,
            final(self).queue@ == old(self).queue@,
            final(self).pending_keys@ == old(self).pending_keys@,
            final(self).pending_keys.wf() == old(self).pending_keys.wf(),
            final(self).inflight == old(self).inflight,
            final(self).cancel_requested == old(self).cancel_requested,
    {
        self.paused = true;
    }

    pub fn resume(&mut self)
        ensures
            !final(self).paused,
            final(self).queue@ == old(self).queue@,
            final(self).pending_keys@ == old(self).pending_keys@,
            final(self).pending_keys.wf() == old(self).pending_keys.wf(),
            final(self).inflight == old(self).inflight,
            final(self).cancel_requested == old(self).cancel_requested,
    {
        self.paused = false;
    }

    pub fn request_cancel(&mut self)
        ensures
            final(self).cancel_requested,
            final(self).queue@ == old(self).queue@,
            final(self).pending_keys@ == old(self).pending_keys@,
            final(self).pending_keys.wf() == old(self).pending_keys.wf(),
            final(self).inflight == old(self).inflight,
            final(self).paused == old(self).paused,
    {
        self.cancel_requested = true;
    }

    /// Pauses and asks the running job to stop; the caller then waits for idle.
    pub fn pause_and_cancel(&mut self)
        ensures
            final(self).paused,
            final(self).cancel_requested,
            final(self).queue@ == old(self).queue@,
            final(self).pending_keys@ == old(self).pending_keys@,
            final(self).pending_keys.wf() == old(self).pending_keys.wf(),
            final(self).inflight == old(self).inflight,
    {
        self.pause();
        self.request_cancel();
    }

    /// No job in flight, and nothing pending or the queue paused.
    pub fn is_idle(&self) -> (r: bool)
        ensures
            r == (self.inflight is None && (self.paused || self.pending_keys@.len() == 0)),
    {
        self.inflight.is_none() && (self.paused || self.pending_keys.len() == 0)
    }
}

/// At most one job is in flight, and it is never also queued: its key
/// appears once among the pending keys.
pub proof fn lemma_single_inflight(q: &BackgroundExportQueue)
    requires
        q.wf(),
    ensures
        inflight_keys(q.inflight).len() <= 1,
        q.inflight is Some ==> !job_keys(q.queue@).contains(q.inflight->0@),
        q.pending_keys@.len() == inflight_keys(q.inflight).len() + q.queue@.len(),
{
    if q.inflight is Some {
        let k = q.inflight->0@;
        if job_keys(q.queue@).contains(k) {
            let j = choose|j: int| 0 <= j < job_keys(q.queue@).len() && job_keys(q.queue@)[j] == k;
            assert(q.pending_keys@[0] == k);
            assert(q.pending_keys@[j + 1] == k);
        }
    }
}

/// Whether `path` lies under directory `dir`, component-wise.
pub open spec fn path_within(path: Seq<char>, dir: Seq<char>) -> bool {
    &&& dir.len() > 0
    &&& dir.len() <= path.len()
    &&& path.subrange(0, dir.len() as int) == dir
    &&& (dir.len() == path.len() || is_sep(dir.last()) || is_sep(path[dir.len() as int]))
}

pub fn is_path_within(path: &str, dir: &str) -> (r: bool)
    ensures
        r == path_within(path@, dir@),
{
    let n = dir.unicode_len();
    if n == 0 || !starts_with(path, dir) {
        return false;
    }
    let m = path.unicode_len();
    if n == m {
        return true;
    }
    let last = dir.get_char(n - 1);
    let next = path.get_char(n);
    last == '/' || last == '\\' || next == '/' || next == '\\'
}

/// What the worker does with one job.
#[derive(Clone, Copy, Debug, PartialEq, Eq, Structural)]
pub enum JobDecision {
    /// No session is open.
    SkipNoSession,
    /// The file is not in the open session's raw folder.
    SkipOutsideSession,
    /// The session metadata already marks it exported.
    SkipCompleted,
    /// A cancel was requested before the work began.
    SkipCancelled,
    /// Record an attempt and run the export pipeline.
    Export,
}

pub open spec fn job_decision(raw_dir: Option<Seq<char>>, path: Seq<char>, completed: bool, cancel: bool) -> JobDecision {
    match raw_dir {
        None => JobDecision::SkipNoSession,
        Some(dir) => if !path_within(path, dir) {
            JobDecision::SkipOutsideSession
        } else if completed {
            JobDecision::SkipCompleted
        } else if cancel {
            JobDecision::SkipCancelled
        } else {
            JobDecision::Export
        },
    }
}

/// Decides a job from the open session's raw folder (if any), the job's
/// path, whether the metadata marks it exported and the cancel flag.
pub fn decide_job(raw_dir: Option<&str>, path: &str, completed: bool, cancel_requested: bool) -> (r: JobDecision)
    ensures
        r == job_decision(
            match raw_dir { Some(d) => Some(d@), None => None },
            path@,
            completed,
            cancel_requested,
        ),
{
    match raw_dir {
        None => JobDecision::SkipNoSession,
        Some(dir) => {
            if !is_path_within(path, dir) {
                JobDecision::SkipOutsideSession
            } else if completed {
                JobDecision::SkipCompleted
            } else if cancel_requested {
                JobDecision::SkipCancelled
            } else {
                JobDecision::Export
            }
        },
    }
}

/// A raw file found when a session opens.
#[derive(Clone, Debug)]
pub struct CatchUpCandidate {
    pub path: String,
    pub is_dir: bool,
    pub is_raw: bool,
    /// A `.rrdata` document sits next to it.
    pub has_preset_document: bool,
    /// The session metadata marks it exported.
    pub completed: bool,
}

pub open spec fn catch_up_wanted(c: CatchUpCandidate) -> bool {
    !c.is_dir && c.is_raw && c.has_preset_document && !c.completed
}

pub open spec fn catch_up_skipped(c: CatchUpCandidate) -> bool {
    !c.is_dir && c.is_raw && !(c.has_preset_document && !c.completed)
}

pub open spec fn catch_up_paths(cs: Seq<CatchUpCandidate>) -> Seq<Seq<char>>
    decreases cs.len(),
{
    if cs.len() == 0 {
        Seq::empty()
    } else {
        let rest = catch_up_paths(cs.drop_last());
        if catch_up_wanted(cs.last()) { rest.push(cs.last().path@) } else { rest }
    }
}

pub open spec fn catch_up_skip_count(cs: Seq<CatchUpCandidate>) -> nat
    decreases cs.len(),
{
    if cs.len() == 0 {
        0
    } else {
        catch_up_skip_count(cs.drop_last()) + if catch_up_skipped(cs.last()) { 1nat } else { 0nat }
    }
}

/// Catch-up on session open: the raw files, in the given order, that carry a
/// preset document and are not exported yet, and how many raw files were skipped.
pub fn select_catch_up(candidates: &Vec<CatchUpCandidate>) -> (r: (Vec<String>, usize))
    ensures
        strings_view(r.0@) == catch_up_paths(candidates@),
        r.1 as nat == catch_up_skip_count(candidates@),
{
    let mut paths: Vec<String> = Vec::new();
    let mut skipped: usize = 0;
    let mut i: usize = 0;
    while i < candidates.len()
        invariant
            i <= candidates@.len(),
            strings_view(paths@) == catch_up_paths(candidates@.subrange(0, i as int)),
            skipped as nat == catch_up_skip_count(candidates@.subrange(0, i as int)),
            skipped <= i,
        decreases candidates.len() - i,
    {
        let c = &candidates[i];
        proof {
            assert(candidates@.subrange(0, i + 1).drop_last() =~= candidates@.subrange(0, i as int));
        }
        if !c.is_dir && c.is_raw {
            if c.has_preset_document && !c.completed {
                paths.push(c.path.clone());
                assert(strings_view(paths@) =~= catch_up_paths(candidates@.subrange(0, i + 1)));
            } else {
                skipped = skipped + 1;
            }
        }
        i = i + 1;
    }
    assert(candidates@.subrange(0, i as int) =~= candidates@);
    (paths, skipped)
}

} // verus!

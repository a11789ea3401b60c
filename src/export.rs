//! Batch export helpers: progress of a batch, the per-file completion
//! states read from the session metadata, and the choice between
//! re-exporting everything and continuing after the background queue.

use vstd::prelude::*;
use crate::paths::{file_name, file_name_of};
use crate::supervisor::clone_opt;
use crate::text::{trim, trim_ws};
use vstd::string::*;

verus! {

/// What a batch export does with files the background queue already exported.
#[derive(Clone, Copy, Debug, PartialEq, Eq, Structural)]
pub enum BoothyExportChoice {
    OverwriteAll,
    ContinueFromBackground,
}

/// One photo entry as the batch exporter reads it.
#[derive(Clone, Debug)]
pub struct BoothySessionPhoto {
    pub raw_filename: String,
    pub background_export_completed: Option<bool>,
    pub correlation_id: Option<String>,
}

/// The session metadata as the batch exporter reads it.
#[derive(Clone, Debug)]
pub struct BoothySessionMetadata {
    pub schema_version: Option<u32>,
    pub photos: Vec<BoothySessionPhoto>,
}

#[derive(Clone, Debug)]
pub struct BoothyPhotoState {
    pub completed: bool,
    pub correlation_id: Option<String>,
}

/// Completion states by raw file name; for a name listed twice the later
/// entry counts.
#[derive(Clone, Debug)]
pub struct PhotoStateMap {
    pub entries: Vec<(String, BoothyPhotoState)>,
}

pub open spec fn states_view(e: Seq<(String, BoothyPhotoState)>) -> Seq<(Seq<char>, bool)> {
    e.map_values(|p: (String, BoothyPhotoState)| (p.0@, p.1.completed))
}

/// The later entry's completion for `name`, if any.
pub open spec fn state_lookup(e: Seq<(Seq<char>, bool)>, name: Seq<char>) -> Option<bool>
    decreases e.len(),
{
    if e.len() == 0 {
        None
    } else if e.last().0 == name {
        Some(e.last().1)
    } else {
        state_lookup(e.drop_last(), name)
    }
}

/// The photos with a non-blank name, as (name, completed) in order.
pub open spec fn photo_states(p: Seq<BoothySessionPhoto>) -> Seq<(Seq<char>, bool)>
    decreases p.len(),
{
    if p.len() == 0 {
        Seq::empty()
    } else {
        let rest = photo_states(p.drop_last());
        let last = p.last();
        if trim_ws(last.raw_filename@).len() == 0 {
            rest
        } else {
            rest.push((last.raw_filename@, match last.background_export_completed {
                Some(b) => b,
                None => false,
            }))
        }
    }
}

/// Collects the completion state of every photo with a non-blank name.
pub fn build_photo_state_map(metadata: &BoothySessionMetadata) -> (r: PhotoStateMap)
    ensures
        states_view(r.entries@) == photo_states(metadata.photos@),
{
    let mut entries: Vec<(String, BoothyPhotoState)> = Vec::new();
    let mut i: usize = 0;
    while i < metadata.photos.len()
        invariant
            i <= metadata.photos@.len(),
            states_view(entries@) == photo_states(metadata.photos@.subrange(0, i as int)),
        decreases metadata.photos.len() - i,
    {
        let photo = &metadata.photos[i];
        proof {
            assert(metadata.photos@.subrange(0, i + 1).drop_last() =~= metadata.photos@.subrange(0, i as int));
        }
        if trim(photo.raw_filename.as_str()).unicode_len() != 0 {
            let completed = match photo.background_export_completed {
                Some(b) => b,
                None => false,
            };
            entries.push((
                photo.raw_filename.clone(),
                BoothyPhotoState { completed, correlation_id: clone_opt(&photo.correlation_id) },
            ));
            assert(states_view(entries@) =~= photo_states(metadata.photos@.subrange(0, i + 1)));
        }
        i = i + 1;
    }
    assert(metadata.photos@.subrange(0, i as int) =~= metadata.photos@);
    PhotoStateMap { entries }
}

impl PhotoStateMap {
    /// Whether `name` is marked completed (false when unknown).
    pub fn is_completed(&self, name: &str) -> (r: bool)
        ensures
            r == (state_lookup(states_view(self.entries@), name@) == Some(true)),
    {
        let mut i: usize = self.entries.len();
        assert(self.entries@.subrange(0, i as int) =~= self.entries@);
        while i > 0
            invariant
                i <= self.entries@.len(),
                state_lookup(states_view(self.entries@), name@) == state_lookup(
                    states_view(self.entries@.subrange(0, i as int)),
                    name@,
                ),
            decreases i,
        {
            proof {
                assert(states_view(self.entries@.subrange(0, i as int)).drop_last()
                    =~= states_view(self.entries@.subrange(0, i - 1)));
            }
            if crate::strings::str_equals(self.entries[i - 1].0.as_str(), name) {
                return self.entries[i - 1].1.completed;
            }
            i = i - 1;
        }
        false
    }
}

/// The file name used to look a path up: its file name, or empty.
pub open spec fn lookup_name(p: Seq<char>) -> Seq<char> {
    match file_name_of(p) {
        Some(n) => n,
        None => Seq::empty(),
    }
}

pub open spec fn is_done(states: Option<Seq<(Seq<char>, bool)>>, p: Seq<char>) -> bool {
    match states {
        Some(s) => state_lookup(s, lookup_name(p)) == Some(true),
        None => false,
    }
}

pub open spec fn continue_paths(paths: Seq<Seq<char>>, states: Option<Seq<(Seq<char>, bool)>>) -> Seq<Seq<char>>
    decreases paths.len(),
{
    if paths.len() == 0 {
        Seq::empty()
    } else {
        let rest = continue_paths(paths.drop_last(), states);
        if is_done(states, paths.last()) { rest } else { rest.push(paths.last()) }
    }
}

/// The paths a batch export works on: all of them, or, when continuing,
/// those whose file is not marked completed.
pub fn filter_export_paths(paths: Vec<String>, photo_states: Option<&PhotoStateMap>, choice: BoothyExportChoice)
    -> (r: Vec<String>)
    ensures
        choice == BoothyExportChoice::OverwriteAll ==> r@ == paths@,
        choice == BoothyExportChoice::ContinueFromBackground ==> crate::keyset::strings_view(r@)
            == continue_paths(
            crate::keyset::strings_view(paths@),
            match photo_states { Some(m) => Some(states_view(m.entries@)), None => None },
        ),
{
    match choice {
        BoothyExportChoice::OverwriteAll => paths,
        BoothyExportChoice::ContinueFromBackground => {
            let ghost states = match photo_states { Some(m) => Some(states_view(m.entries@)), None => None };
            let ghost pv = crate::keyset::strings_view(paths@);
            let mut out: Vec<String> = Vec::new();
            let mut i: usize = 0;
            while i < paths.len()
                invariant
                    i <= paths@.len(),
                    pv == crate::keyset::strings_view(paths@),
                    states == match photo_states { Some(m) => Some(states_view(m.entries@)), None => None },
                    crate::keyset::strings_view(out@) == continue_paths(pv.subrange(0, i as int), states),
                decreases paths.len() - i,
            {
                proof {
                    assert(pv.subrange(0, i + 1).drop_last() =~= pv.subrange(0, i as int));
                }
                let done = match photo_states {
                    Some(m) => {
                        match file_name(paths[i].as_str()) {
                            Some(n) => m.is_completed(n.as_str()),
                            None => {
                                proof { reveal_strlit(""); }
                                assert(""@ =~= Seq::<char>::empty());
                                m.is_completed("")
                            },
                        }
                    },
                    None => false,
                };
                assert(pv[i as int] == paths@[i as int]@);
                assert(done == is_done(states, pv[i as int]));
                assert(pv.subrange(0, i + 1).last() == pv[i as int]);
                if !done {
                    let ghost before = out@;
                    out.push(paths[i].clone());
                    assert(crate::keyset::strings_view(out@) =~= crate::keyset::strings_view(before).push(pv[i as int]));
                }
                i = i + 1;
            }
            assert(pv.subrange(0, i as int) =~= pv);
            out
        },
    }
}

/// State of a batch export as reported to the UI.
#[derive(Clone, Copy, Debug, PartialEq, Eq, Structural)]
pub enum ExportProgressStatus {
    Idle,
    Exporting,
    Complete,
    Error,
}

#[derive(Clone, Debug)]
pub struct ExportProgressState {
    pub status: ExportProgressStatus,
    pub completed: usize,
    pub total: usize,
    pub current_path: String,
}

impl ExportProgressState {
    pub fn new(total: usize) -> (r: ExportProgressState)
        ensures
            r.status == ExportProgressStatus::Idle,
            r.completed == 0,
            r.total == total,
            r.current_path@.len() == 0,
    {
        ExportProgressState { status: ExportProgressStatus::Idle, completed: 0, total, current_path: String::new() }
    }

    /// `completed` files done, now working on `current_path`.
    pub fn advance(&mut self, completed: usize, current_path: String)
        ensures
            final(self).status == ExportProgressStatus::Exporting,
            final(self).completed == completed,
            final(self).current_path == current_path,
            final(self).total == old(self).total,
    {
        self.status = ExportProgressStatus::Exporting;
        self.completed = completed;
        self.current_path = current_path;
    }

    /// All done: complete unless an error was reported, which stays.
    pub fn mark_complete(&mut self)
        ensures
            final(self).status == (if old(self).status == ExportProgressStatus::Error {
                ExportProgressStatus::Error
            } else {
                ExportProgressStatus::Complete
            }),
            final(self).completed == old(self).total,
            final(self).total == old(self).total,
            final(self).current_path@.len() == 0,
    {
        if self.status != ExportProgressStatus::Error {
            self.status = ExportProgressStatus::Complete;
        }
        self.completed = self.total;
        self.current_path = String::new();
    }

    pub fn mark_error(&mut self)
        ensures
            final(self).status == ExportProgressStatus::Error,
            final(self).completed == old(self).completed,
            final(self).total == old(self).total,
            final(self).current_path == old(self).current_path,
    {
        self.status = ExportProgressStatus::Error;
    }
}

} // verus!

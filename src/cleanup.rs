//! Cleanup of old session folders: which requested names may be deleted,
//! and the summary of what happened. Listing and deleting folders are the
//! caller's.

use vstd::prelude::*;
use crate::session::{name_problem, validate_session_name};
use crate::strings::str_equals;
use vstd::string::*;

verus! {

/// One session folder as listed for cleanup.
#[derive(Clone, Debug)]
pub struct CleanupSessionEntry {
    pub name: String,
    pub path: String,
    pub last_modified: Option<String>,
    pub size_bytes: Option<u64>,
    pub is_active: bool,
    pub diagnostic: Option<String>,
}

#[derive(Clone, Debug)]
pub struct CleanupDeleteFailure {
    pub name: String,
    pub diagnostic: String,
}

/// Names deleted, skipped (active or invalid) and failed, in request order.
#[derive(Clone, Debug)]
pub struct CleanupDeleteSummary {
    pub deleted: Vec<String>,
    pub skipped_active: Vec<String>,
    pub skipped_invalid: Vec<String>,
    pub failed: Vec<CleanupDeleteFailure>,
}

/// What to do with one requested name.
#[derive(Clone, Copy, Debug, PartialEq, Eq, Structural)]
pub enum DeleteStep {
    /// It is the open session.
    SkipActive,
    /// It does not name a single folder under the root.
    SkipInvalid,
    /// Resolve it under the root and delete the folder.
    Delete,
}

pub open spec fn delete_step_of(active: Option<Seq<char>>, name: Seq<char>) -> DeleteStep {
    if active == Some(name) {
        DeleteStep::SkipActive
    } else if name_problem(name) is Some {
        DeleteStep::SkipInvalid
    } else {
        DeleteStep::Delete
    }
}

/// Decides a requested deletion from the open session's name, if any.
pub fn delete_step(active_session_name: Option<&str>, session_name: &str) -> (r: DeleteStep)
    ensures
        r == delete_step_of(
            match active_session_name { Some(a) => Some(a@), None => None },
            session_name@,
        ),
{
    if let Some(active) = active_session_name {
        if str_equals(active, session_name) {
            return DeleteStep::SkipActive;
        }
    }
    if validate_session_name(session_name).is_err() {
        DeleteStep::SkipInvalid
    } else {
        DeleteStep::Delete
    }
}

/// The two optional diagnostics of a listed folder joined by `; `.
pub fn combine_diagnostics(left: Option<String>, right: Option<String>) -> (r: Option<String>)
    ensures
        r is None <==> (left is None && right is None),
        left is Some && right is Some ==> r->0@ == left->0@ + "; "@ + right->0@,
        left is Some && right is None ==> r == left,
        left is None && right is Some ==> r == right,
{
    match (left, right) {
        (Some(l), Some(r)) => {
            let mut s = l;
            s.append("; ");
            s.append(r.as_str());
            Some(s)
        },
        (Some(l), None) => Some(l),
        (None, Some(r)) => Some(r),
        (None, None) => None,
    }
}

impl CleanupDeleteSummary {
    pub fn new() -> (r: CleanupDeleteSummary)
        ensures
            r.deleted@.len() == 0,
            r.skipped_active@.len() == 0,
            r.skipped_invalid@.len() == 0,
            r.failed@.len() == 0,
    {
        CleanupDeleteSummary {
            deleted: Vec::new(),
            skipped_active: Vec::new(),
            skipped_invalid: Vec::new(),
            failed: Vec::new(),
        }
    }

    /// Records the outcome for one name: a skip, or the deletion's result.
    pub fn record(&mut self, session_name: String, step: DeleteStep, deletion: Result<(), String>)
        ensures
            step == DeleteStep::SkipActive ==> final(self).skipped_active@ == old(self).skipped_active@.push(session_name)
                && final(self).deleted@ == old(self).deleted@
                && final(self).skipped_invalid@ == old(self).skipped_invalid@
                && final(self).failed@ == old(self).failed@,
            step == DeleteStep::SkipInvalid ==> final(self).skipped_invalid@ == old(self).skipped_invalid@.push(session_name)
                && final(self).deleted@ == old(self).deleted@
                && final(self).skipped_active@ == old(self).skipped_active@
                && final(self).failed@ == old(self).failed@,
            step == DeleteStep::Delete && deletion is Ok ==> final(self).deleted@ == old(self).deleted@.push(session_name)
                && final(self).skipped_active@ == old(self).skipped_active@
                && final(self).skipped_invalid@ == old(self).skipped_invalid@
                && final(self).failed@ == old(self).failed@,
            step == DeleteStep::Delete && deletion is Err ==> final(self).failed@ == old(self).failed@.push(
                CleanupDeleteFailure { name: session_name, diagnostic: deletion->Err_0 },
            ) && final(self).deleted@ == old(self).deleted@
                && final(self).skipped_active@ == old(self).skipped_active@
                && final(self).skipped_invalid@ == old(self).skipped_invalid@,
    {
        match step {
            DeleteStep::SkipActive => self.skipped_active.push(session_name),
            DeleteStep::SkipInvalid => self.skipped_invalid.push(session_name),
            DeleteStep::Delete => match deletion {
                Ok(()) => self.deleted.push(session_name),
                Err(diagnostic) => self.failed.push(CleanupDeleteFailure { name: session_name, diagnostic }),
            },
        }
    }
}

} // verus!

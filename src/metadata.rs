//! Per-session background-export bookkeeping (`boothy.session.json`): one
//! entry per raw file name with its attempts, completion and last error.
//! Reading and the atomic rewrite of the file are the caller's; these are
//! the updates between them.

use vstd::prelude::*;
use crate::strings::{owned, str_equals};
use vstd::string::*;

verus! {

/// File name of the metadata document at the session root.
pub const SESSION_METADATA_FILENAME: &'static str = "boothy.session.json";

/// Code recorded when a background export was cancelled.
pub const BACKGROUND_EXPORT_CANCELLED: &'static str = "BACKGROUND_EXPORT_CANCELLED";

/// Schema version written by this library.
pub fn default_schema_version() -> (r: u32)
    ensures
        r == 1,
{
    1
}

/// The error recorded for a failed attempt.
#[derive(Clone, Debug)]
pub struct SessionExportError {
    pub code: String,
    pub message: String,
    /// String entries of the context object.
    pub context: Vec<(String, String)>,
}

impl SessionExportError {
    pub fn new(code: String, message: String, context: Vec<(String, String)>) -> (r: SessionExportError)
        ensures
            r == (SessionExportError { code, message, context }),
    {
        SessionExportError { code, message, context }
    }
}

pub open spec fn export_error_of(err: Seq<char>, destination: Seq<char>, correlation_id: Seq<char>)
    -> (Seq<char>, Seq<char>, Seq<(Seq<char>, Seq<char>)>)
{
    if err == "BACKGROUND_EXPORT_CANCELLED"@ {
        ("BACKGROUND_EXPORT_CANCELLED"@, "Background export cancelled."@,
            seq![("correlationId"@, correlation_id)])
    } else {
        ("EXPORT_FAILED"@,
            "Failed to export image. Please try again or choose a different location."@,
            seq![("destination"@, destination), ("detail"@, err), ("correlationId"@, correlation_id)])
    }
}

/// The error recorded when the pipeline returned `err` for an export to
/// `destination`: a cancellation when `err` is the cancellation sentinel,
/// else an export failure carrying the destination and the detail.
pub fn background_export_error(err: &str, destination: &str, correlation_id: &str) -> (r: SessionExportError)
    ensures
        ({
            let (code, message, ctx) = export_error_of(err@, destination@, correlation_id@);
            &&& r.code@ == code
            &&& r.message@ == message
            &&& crate::entries::entries_view(r.context@) == ctx
        }),
{
    if str_equals(err, BACKGROUND_EXPORT_CANCELLED) {
        let context = vec![(owned("correlationId"), owned(correlation_id))];
        assert(crate::entries::entries_view(context@) =~= seq![("correlationId"@, correlation_id@)]);
        SessionExportError {
            code: owned(BACKGROUND_EXPORT_CANCELLED),
            message: owned("Background export cancelled."),
            context,
        }
    } else {
        let context = vec![
            (owned("destination"), owned(destination)),
            (owned("detail"), owned(err)),
            (owned("correlationId"), owned(correlation_id)),
        ];
        assert(crate::entries::entries_view(context@) =~= seq![
            ("destination"@, destination@),
            ("detail"@, err@),
            ("correlationId"@, correlation_id@),
        ]);
        SessionExportError {
            code: owned(crate::error::export::EXPORT_FAILED),
            message: owned("Failed to export image. Please try again or choose a different location."),
            context,
        }
    }
}

/// Export state of one raw file. Times are ISO-8601 UTC text.
#[derive(Clone, Debug)]
pub struct SessionPhotoExportState {
    pub raw_filename: String,
    pub background_export_completed: bool,
    pub background_export_timestamp: Option<String>,
    pub attempt_count: u32,
    pub last_attempt_at: Option<String>,
    pub last_error: Option<SessionExportError>,
}

/// The whole document.
#[derive(Clone, Debug)]
pub struct BoothySessionMetadata {
    pub schema_version: u32,
    pub photos: Vec<SessionPhotoExportState>,
}

pub open spec fn fresh_entry(name: String) -> SessionPhotoExportState {
    SessionPhotoExportState {
        raw_filename: name,
        background_export_completed: false,
        background_export_timestamp: None,
        attempt_count: 0,
        last_attempt_at: None,
        last_error: None,
    }
}

pub open spec fn is_first_photo(p: Seq<SessionPhotoExportState>, name: Seq<char>, i: int) -> bool {
    &&& 0 <= i < p.len()
    &&& p[i].raw_filename@ == name
    &&& forall|j: int| 0 <= j < i ==> p[j].raw_filename@ != name
}

/// Index of the first entry for `name`, or -1.
pub open spec fn photo_index(p: Seq<SessionPhotoExportState>, name: Seq<char>) -> int {
    if exists|i: int| is_first_photo(p, name, i) {
        choose|i: int| is_first_photo(p, name, i)
    } else {
        -1
    }
}

pub proof fn lemma_photo_index(p: Seq<SessionPhotoExportState>, name: Seq<char>, i: int)
    requires
        is_first_photo(p, name, i),
    ensures
        photo_index(p, name) == i,
{
    let c = choose|c: int| is_first_photo(p, name, c);
    assert(is_first_photo(p, name, c));
    if c < i {
        assert(p[c].raw_filename@ != name);
    }
    if i < c {
        assert(p[i].raw_filename@ != name);
    }
}

/// The entry updates applied by the three recorders.
pub open spec fn attempt_update(e: SessionPhotoExportState, now: String) -> SessionPhotoExportState {
    SessionPhotoExportState {
        attempt_count: if e.attempt_count == u32::MAX { u32::MAX } else { (e.attempt_count + 1) as u32 },
        last_attempt_at: Some(now),
        last_error: None,
        background_export_completed: false,
        ..e
    }
}

pub open spec fn success_update(e: SessionPhotoExportState, now: String) -> SessionPhotoExportState {
    SessionPhotoExportState {
        background_export_completed: true,
        background_export_timestamp: Some(now),
        last_error: None,
        attempt_count: if e.attempt_count == 0 { 1 } else { e.attempt_count },
        last_attempt_at: if e.attempt_count == 0 { Some(now) } else { e.last_attempt_at },
        ..e
    }
}

pub open spec fn failure_update(e: SessionPhotoExportState, error: SessionExportError, now: String) -> SessionPhotoExportState {
    SessionPhotoExportState {
        background_export_completed: false,
        last_error: Some(error),
        attempt_count: if e.attempt_count == 0 { 1 } else { e.attempt_count },
        last_attempt_at: if e.attempt_count == 0 { Some(now) } else { e.last_attempt_at },
        ..e
    }
}

/// The entry for `name` (a fresh one when absent) before an update.
pub open spec fn current_entry(p: Seq<SessionPhotoExportState>, name: String) -> SessionPhotoExportState {
    let i = photo_index(p, name@);
    if i >= 0 { p[i] } else { fresh_entry(name) }
}

/// Puts an updated entry back: in place, or appended when absent.
pub open spec fn put_entry(p: Seq<SessionPhotoExportState>, name: Seq<char>, e: SessionPhotoExportState) -> Seq<SessionPhotoExportState> {
    let i = photo_index(p, name);
    if i >= 0 { p.update(i, e) } else { p.push(e) }
}

pub open spec fn after_failures(
    p: Seq<SessionPhotoExportState>,
    name: String,
    failures: Seq<(SessionExportError, String)>,
) -> Seq<SessionPhotoExportState>
    decreases failures.len(),
{
    if failures.len() == 0 {
        p
    } else {
        let before = after_failures(p, name, failures.drop_last());
        let (err, now) = failures.last();
        put_entry(before, name@, failure_update(current_entry(before, name), err, now))
    }
}

proof fn lemma_first_photo_exists(p: Seq<SessionPhotoExportState>, name: Seq<char>, w: int)
    requires
        0 <= w < p.len(),
        p[w].raw_filename@ == name,
    ensures
        exists|i: int| is_first_photo(p, name, i),
    decreases w,
{
    if exists|j: int| 0 <= j < w && p[j].raw_filename@ == name {
        let j = choose|j: int| 0 <= j < w && p[j].raw_filename@ == name;
        lemma_first_photo_exists(p, name, j);
    } else {
        assert(is_first_photo(p, name, w));
    }
}

/// Marking success after any number of failed attempts leaves the file's
/// entry completed, with no error and at least one attempt counted.
pub proof fn lemma_success_after_failures(
    p: Seq<SessionPhotoExportState>,
    name: String,
    failures: Seq<(SessionExportError, String)>,
    now: String,
)
    ensures
        ({
            let before = after_failures(p, name, failures);
            let after = put_entry(before, name@, success_update(current_entry(before, name), now));
            let i = photo_index(after, name@);
            &&& 0 <= i < after.len()
            &&& after[i].raw_filename@ == name@
            &&& after[i].background_export_completed
            &&& after[i].last_error is None
            &&& after[i].attempt_count >= 1
        }),
{
    let before = after_failures(p, name, failures);
    let e = current_entry(before, name);
    let i0 = photo_index(before, name@);
    if i0 >= 0 {
        let c = choose|c: int| is_first_photo(before, name@, c);
        assert(e.raw_filename@ == name@);
    }
    assert(e.raw_filename@ == name@);
    let s = success_update(e, now);
    lemma_put_entry_named(before, name, s);
}

proof fn lemma_put_entry_named(p: Seq<SessionPhotoExportState>, name: String, e: SessionPhotoExportState)
    requires
        e.raw_filename@ == name@,
    ensures
        ({
            let q = put_entry(p, name@, e);
            let i = photo_index(q, name@);
            0 <= i < q.len() && q[i] == e
        }),
{
    let i = photo_index(p, name@);
    let q = put_entry(p, name@, e);
    if i >= 0 {
        let c = choose|c: int| is_first_photo(p, name@, c);
        assert(is_first_photo(q, name@, i));
        lemma_photo_index(q, name@, i);
    } else {
        assert forall|j: int| 0 <= j < p.len() implies p[j].raw_filename@ != name@ by {
            if p[j].raw_filename@ == name@ {
                lemma_first_photo_exists(p, name@, j);
            }
        }
        assert(is_first_photo(q, name@, p.len() as int));
        lemma_photo_index(q, name@, p.len() as int);
    }
}

impl BoothySessionMetadata {
    /// An empty document of the current schema.
    pub fn new() -> (r: BoothySessionMetadata)
        ensures
            r.schema_version == 1,
            r.photos@.len() == 0,
    {
        BoothySessionMetadata { schema_version: default_schema_version(), photos: Vec::new() }
    }
}

/// Index of the entry for `name`.
pub fn find_photo(metadata: &BoothySessionMetadata, name: &str) -> (r: Option<usize>)
    ensures
        r is Some ==> photo_index(metadata.photos@, name@) == r->0 as int
            && is_first_photo(metadata.photos@, name@, r->0 as int),
        r is None ==> photo_index(metadata.photos@, name@) == -1,
{
    let mut i: usize = 0;
    while i < metadata.photos.len()
        invariant
            i <= metadata.photos@.len(),
            forall|j: int| 0 <= j < i ==> metadata.photos@[j].raw_filename@ != name@,
        decreases metadata.photos.len() - i,
    {
        if str_equals(metadata.photos[i].raw_filename.as_str(), name) {
            proof {
                lemma_photo_index(metadata.photos@, name@, i as int);
            }
            return Some(i);
        }
        i = i + 1;
    }
    None
}

/// Which recorder is applied.
pub enum PhotoUpdate {
    Attempt(String),
    Success(String),
    Failure(SessionExportError, String),
}

pub open spec fn update_spec(e: SessionPhotoExportState, u: PhotoUpdate) -> SessionPhotoExportState {
    match u {
        PhotoUpdate::Attempt(now) => attempt_update(e, now),
        PhotoUpdate::Success(now) => success_update(e, now),
        PhotoUpdate::Failure(err, now) => failure_update(e, err, now),
    }
}

fn apply_update(e: SessionPhotoExportState, u: PhotoUpdate) -> (r: SessionPhotoExportState)
    ensures
        r == update_spec(e, u),
{
    let mut e = e;
    match u {
        PhotoUpdate::Attempt(now) => {
            e.attempt_count = if e.attempt_count == u32::MAX { u32::MAX } else { e.attempt_count + 1 };
            e.last_attempt_at = Some(now);
            e.last_error = None;
            e.background_export_completed = false;
        },
        PhotoUpdate::Success(now) => {
            e.background_export_completed = true;
            if e.attempt_count == 0 {
                e.attempt_count = 1;
                e.last_attempt_at = Some(now.clone());
            }
            e.background_export_timestamp = Some(now);
            e.last_error = None;
        },
        PhotoUpdate::Failure(err, now) => {
            e.background_export_completed = false;
            e.last_error = Some(err);
            if e.attempt_count == 0 {
                e.attempt_count = 1;
                e.last_attempt_at = Some(now);
            }
        },
    }
    e
}

/// Applies one recorder to the entry of `raw_filename`, creating the entry
/// when the file has none.
pub fn update_photo_state(metadata: &mut BoothySessionMetadata, raw_filename: String, u: PhotoUpdate)
    requires
        old(metadata).photos@.len() < usize::MAX,
    ensures
        final(metadata).schema_version == old(metadata).schema_version,
        final(metadata).photos@ == put_entry(
            old(metadata).photos@,
            raw_filename@,
            update_spec(current_entry(old(metadata).photos@, raw_filename), u),
        ),
{
    match find_photo(metadata, raw_filename.as_str()) {
        Some(i) => {
            let e = metadata.photos.remove(i);
            let e2 = apply_update(e, u);
            metadata.photos.insert(i, e2);
            assert(metadata.photos@ =~= old(metadata).photos@.update(i as int, e2));
        },
        None => {
            let e = SessionPhotoExportState {
                raw_filename,
                background_export_completed: false,
                background_export_timestamp: None,
                attempt_count: 0,
                last_attempt_at: None,
                last_error: None,
            };
            let e2 = apply_update(e, u);
            metadata.photos.push(e2);
        },
    }
}

/// Counts an attempt: one more attempt at `now`, no error, not complete.
pub fn record_background_export_attempt(metadata: &mut BoothySessionMetadata, raw_filename: String, now: String)
    requires
        old(metadata).photos@.len() < usize::MAX,
    ensures
        final(metadata).schema_version == old(metadata).schema_version,
        final(metadata).photos@ == put_entry(
            old(metadata).photos@,
            raw_filename@,
            attempt_update(current_entry(old(metadata).photos@, raw_filename), now),
        ),
{
    update_photo_state(metadata, raw_filename, PhotoUpdate::Attempt(now));
}

/// Marks the file exported at `now` and clears its error; a file with no
/// attempt recorded gets one.
pub fn mark_background_export_success(metadata: &mut BoothySessionMetadata, raw_filename: String, now: String)
    requires
        old(metadata).photos@.len() < usize::MAX,
    ensures
        final(metadata).schema_version == old(metadata).schema_version,
        final(metadata).photos@ == put_entry(
            old(metadata).photos@,
            raw_filename@,
            success_update(current_entry(old(metadata).photos@, raw_filename), now),
        ),
{
    update_photo_state(metadata, raw_filename, PhotoUpdate::Success(now));
}

/// Records `error` for the file and marks it not complete; a file with no
/// attempt recorded gets one.
pub fn mark_background_export_failure(
    metadata: &mut BoothySessionMetadata,
    raw_filename: String,
    error: SessionExportError,
    now: String,
)
    requires
        old(metadata).photos@.len() < usize::MAX,
    ensures
        final(metadata).schema_version == old(metadata).schema_version,
        final(metadata).photos@ == put_entry(
            old(metadata).photos@,
            raw_filename@,
            failure_update(current_entry(old(metadata).photos@, raw_filename), error, now),
        ),
{
    update_photo_state(metadata, raw_filename, PhotoUpdate::Failure(error, now));
}

/// Whether the file's entry is marked exported; false without an entry.
pub fn is_background_export_completed(metadata: &BoothySessionMetadata, raw_filename: &str) -> (r: bool)
    ensures
        r == (photo_index(metadata.photos@, raw_filename@) >= 0
            && metadata.photos@[photo_index(metadata.photos@, raw_filename@)].background_export_completed),
{
    match find_photo(metadata, raw_filename) {
        Some(i) => metadata.photos[i].background_export_completed,
        None => false,
    }
}

} // verus!

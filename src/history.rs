//! The record kept of each finished session, built from its manifest and
//! the outcomes the worker reported.
use crate::manifest::{FileEntry, SessionManifest};
use crate::outcome::{copy_opt, opt_view, OutcomeMap, OutcomeModel};
use crate::text::{owned, str_eq};
use vstd::prelude::*;

verus! {

/// One file row of a session record.
#[derive(Debug, Clone, PartialEq, Eq)]
pub struct SessionFileRecord {
    pub id: String,
    pub path: String,
    pub name: String,
    pub status: String,
    pub transcript_path: Option<String>,
    pub json_path: Option<String>,
    pub error: Option<String>,
}

/// Totals of a session; the duration is the decimal text of the number of
/// seconds.
#[derive(Debug, Clone, PartialEq, Eq)]
pub struct SessionSummarySnapshot {
    pub total: u64,
    pub processed: u64,
    pub skipped: u64,
    pub failed: u64,
    pub duration_seconds: String,
}

/// The record of a finished session.
#[derive(Debug, Clone, PartialEq, Eq)]
pub struct SessionRecord {
    pub id: String,
    pub created_at: i64,
    pub provider: String,
    pub model: String,
    pub output_dir: String,
    pub manifest_path: String,
    pub total: i32,
    pub processed: i32,
    pub skipped: i32,
    pub failed: i32,
    pub duration_seconds: String,
    pub exit_code: i32,
    pub status: String,
    pub files: Vec<SessionFileRecord>,
}

/// The last component of a path, as `Path::file_name` gives it: `None`
/// where there is none (or it is not UTF-8).
pub uninterp spec fn file_name_of(path: Seq<char>) -> Option<Seq<char>>;

/// The Unix time, in seconds, of an RFC 3339 date-time as chrono parses it;
/// `None` where the text is not one.
pub uninterp spec fn rfc3339_unix(text: Seq<char>) -> Option<i64>;

/// Relies on `Path::file_name`: the last component of the path, which
/// depends on the path alone.
#[verifier::external_body]
pub fn file_name(path: &str) -> (r: Option<String>)
    ensures
        r matches Some(n) ==> file_name_of(path@) == Some(n@),
        r is None ==> file_name_of(path@) is None,
{
    std::path::Path::new(path).file_name().and_then(|name| name.to_str()).map(|name| name.to_string())
}

/// The file name shown for a path: its last component, or the empty string
/// where it has none.
pub open spec fn display_name(path: Seq<char>) -> Seq<char> {
    match file_name_of(path) {
        Some(n) => n,
        None => Seq::empty(),
    }
}

/// The file name shown for a path.
pub fn normalize_file_name(path: &str) -> (r: String)
    ensures
        r@ == display_name(path@),
{
    match file_name(path) {
        Some(n) => n,
        None => String::new(),
    }
}

/// Relies on `chrono::DateTime::parse_from_rfc3339` and `timestamp`: the
/// result depends on the text alone.
#[verifier::external_body]
pub fn parse_rfc3339_unix(text: &str) -> (r: Option<i64>)
    ensures
        r == rfc3339_unix(text@),
{
    chrono::DateTime::parse_from_rfc3339(text).ok().map(|value| value.timestamp())
}

/// Relies on `chrono::Utc::now` and `timestamp`: the current Unix time in
/// seconds. Nothing is promised of the value.
#[verifier::external_body]
pub fn unix_now() -> (r: i64) {
    chrono::Utc::now().timestamp()
}

/// The creation time of a manifest in Unix seconds; where it cannot be
/// parsed the current time is used.
pub fn parse_created_at_unix(created_at: &str) -> (r: i64)
    ensures
        rfc3339_unix(created_at@) matches Some(t) ==> r == t,
{
    match parse_rfc3339_unix(created_at) {
        Some(t) => t,
        None => unix_now(),
    }
}

/// A count as stored: values past `i32::MAX` are stored as `i32::MAX`.
pub open spec fn stored_count(value: u64) -> i32 {
    if value <= i32::MAX as u64 {
        value as i32
    } else {
        i32::MAX
    }
}

/// A count as stored.
pub fn to_i32(value: u64) -> (r: i32)
    ensures
        r == stored_count(value),
{
    if value <= i32::MAX as u64 {
        value as i32
    } else {
        i32::MAX
    }
}

/// The status of a file that has no recorded outcome: `cancelled` in a
/// cancelled session, `failed` in a failed one, else its manifest status.
pub open spec fn fallback_status(session_status: Seq<char>, manifest_status: Seq<char>) -> Seq<
    char,
> {
    if session_status == "cancelled"@ {
        "cancelled"@
    } else if session_status == "failed"@ {
        "failed"@
    } else {
        manifest_status
    }
}

/// Whether `row` records the manifest entry `entry` with outcome `o`, in a
/// session whose status is `session_status`.
pub open spec fn row_for(
    row: SessionFileRecord,
    entry: FileEntry,
    session_status: Seq<char>,
    o: Option<OutcomeModel>,
) -> bool {
    &&& row.id@ == entry.id@
    &&& row.path@ == entry.path@
    &&& row.name@ == display_name(entry.path@)
    &&& row.status@ == match o {
        Some(m) => m.status,
        None => fallback_status(session_status, entry.status@),
    }
    &&& opt_view(row.transcript_path) == match o {
        Some(m) => m.transcript_path,
        None => None,
    }
    &&& opt_view(row.json_path) == match o {
        Some(m) => m.json_path,
        None => None,
    }
    &&& opt_view(row.error) == match o {
        Some(m) => m.error,
        None => None,
    }
}

/// The row for one manifest entry.
pub fn file_record(entry: &FileEntry, session_status: &str, outcomes: &OutcomeMap) -> (r:
    SessionFileRecord)
    ensures
        row_for(r, *entry, session_status@, outcomes.lookup(entry.path@)),
{
    let outcome = outcomes.get(entry.path.as_str());
    let status = match outcome {
        Some(o) => owned(o.status.as_str()),
        None => if str_eq(session_status, "cancelled") {
            String::from_str("cancelled")
        } else if str_eq(session_status, "failed") {
            String::from_str("failed")
        } else {
            owned(entry.status.as_str())
        },
    };
    let (transcript_path, json_path, error) = match outcome {
        Some(o) => (copy_opt(&o.transcript_path), copy_opt(&o.json_path), copy_opt(&o.error)),
        None => (None, None, None),
    };
    SessionFileRecord {
        id: owned(entry.id.as_str()),
        path: owned(entry.path.as_str()),
        name: normalize_file_name(entry.path.as_str()),
        status,
        transcript_path,
        json_path,
        error,
    }
}

/// How many of `files` have the status `status`.
pub open spec fn count_status(files: Seq<SessionFileRecord>, status: Seq<char>) -> nat
    decreases files.len(),
{
    if files.len() == 0 {
        0
    } else {
        count_status(files.drop_last(), status) + if files.last().status@ == status {
            1nat
        } else {
            0nat
        }
    }
}

proof fn lemma_count_bound(files: Seq<SessionFileRecord>, status: Seq<char>)
    ensures
        count_status(files, status) <= files.len(),
    decreases files.len(),
{
    if files.len() > 0 {
        lemma_count_bound(files.drop_last(), status);
    }
}

/// The number of rows with `status`.
pub fn count_with_status(files: &[SessionFileRecord], status: &str) -> (r: u64)
    ensures
        r == count_status(files@, status@),
{
    let n = files.len();
    assert(n as int <= u64::MAX);
    let mut count: u64 = 0;
    let mut i: usize = 0;
    while i < n
        invariant
            0 <= i <= n,
            n == files@.len(),
            n <= u64::MAX,
            count == count_status(files@.subrange(0, i as int), status@),
        decreases n - i,
    {
        proof {
            lemma_count_bound(files@.subrange(0, i as int), status@);
            assert(files@.subrange(0, i + 1).drop_last() =~= files@.subrange(0, i as int));
        }
        if str_eq(files[i].status.as_str(), status) {
            count = count + 1;
        }
        i = i + 1;
    }
    assert(files@.subrange(0, n as int) =~= files@);
    count
}

/// Totals counted from the rows: `success` rows are processed; the duration
/// is unknown and recorded as `0`.
pub fn summarize_from_files(files: &[SessionFileRecord]) -> (r: SessionSummarySnapshot)
    ensures
        r.total == files@.len(),
        r.processed == count_status(files@, "success"@),
        r.skipped == count_status(files@, "skipped"@),
        r.failed == count_status(files@, "failed"@),
        r.duration_seconds@ == "0"@,
{
    SessionSummarySnapshot {
        total: files.len() as u64,
        processed: count_with_status(files, "success"),
        skipped: count_with_status(files, "skipped"),
        failed: count_with_status(files, "failed"),
        duration_seconds: String::from_str("0"),
    }
}

/// The totals a record carries: the reported summary where there is one,
/// else a recount of the rows.
pub open spec fn totals_match(r: SessionRecord, summary: Option<SessionSummarySnapshot>) -> bool {
    match summary {
        Some(s) => {
            &&& r.total == stored_count(s.total)
            &&& r.processed == stored_count(s.processed)
            &&& r.skipped == stored_count(s.skipped)
            &&& r.failed == stored_count(s.failed)
            &&& r.duration_seconds@ == s.duration_seconds@
        },
        None => {
            &&& r.total == stored_count(r.files@.len() as u64)
            &&& r.processed == stored_count(count_status(r.files@, "success"@) as u64)
            &&& r.skipped == stored_count(count_status(r.files@, "skipped"@) as u64)
            &&& r.failed == stored_count(count_status(r.files@, "failed"@) as u64)
            &&& r.duration_seconds@ == "0"@
        },
    }
}

/// The record of a finished session: one row per manifest file, in the
/// manifest's order, each merged with the outcome recorded for its path.
pub fn build_session_record(
    manifest_path: &str,
    manifest: SessionManifest,
    session_id: &str,
    summary: Option<SessionSummarySnapshot>,
    exit_code: i32,
    status: &str,
    outcomes: &OutcomeMap,
) -> (r: SessionRecord)
    ensures
        r.id@ == session_id@,
        rfc3339_unix(manifest.created_at@) matches Some(t) ==> r.created_at == t,
        r.provider@ == manifest.provider@,
        r.model@ == manifest.model@,
        r.output_dir@ == manifest.output_dir@,
        r.manifest_path@ == manifest_path@,
        r.exit_code == exit_code,
        r.status@ == status@,
        r.files@.len() == manifest.files@.len(),
        forall|i: int|
            0 <= i < r.files@.len() ==> row_for(
                #[trigger] r.files@[i],
                manifest.files@[i],
                status@,
                outcomes.lookup(manifest.files@[i].path@),
            ),
        totals_match(r, summary),
{
    let n = manifest.files.len();
    let mut files: Vec<SessionFileRecord> = Vec::new();
    let mut i: usize = 0;
    while i < n
        invariant
            0 <= i <= n,
            n == manifest.files@.len(),
            files@.len() == i,
            forall|k: int|
                0 <= k < i ==> row_for(
                    #[trigger] files@[k],
                    manifest.files@[k],
                    status@,
                    outcomes.lookup(manifest.files@[k].path@),
                ),
        decreases n - i,
    {
        files.push(file_record(&manifest.files[i], status, outcomes));
        i = i + 1;
    }
    let totals = match summary {
        Some(s) => s,
        None => summarize_from_files(files.as_slice()),
    };
    SessionRecord {
        id: owned(session_id),
        created_at: parse_created_at_unix(manifest.created_at.as_str()),
        provider: manifest.provider,
        model: manifest.model,
        output_dir: manifest.output_dir,
        manifest_path: owned(manifest_path),
        total: to_i32(totals.total),
        processed: to_i32(totals.processed),
        skipped: to_i32(totals.skipped),
        failed: to_i32(totals.failed),
        duration_seconds: totals.duration_seconds,
        exit_code,
        status: owned(status),
        files,
    }
}

/// A record has exactly one row per manifest file, in the manifest's order,
/// whatever outcomes were recorded (and however often): archiving a session
/// again yields the same rows, never more.
pub proof fn one_row_per_manifest_file_law(
    r: SessionRecord,
    manifest: SessionManifest,
    status: Seq<char>,
    outcomes: OutcomeMap,
)
    requires
        r.files@.len() == manifest.files@.len(),
        forall|i: int|
            0 <= i < r.files@.len() ==> row_for(
                #[trigger] r.files@[i],
                manifest.files@[i],
                status,
                outcomes.lookup(manifest.files@[i].path@),
            ),
    ensures
        r.files@.len() == manifest.files@.len(),
        forall|i: int|
            0 <= i < r.files@.len() ==> (#[trigger] r.files@[i]).id@ == manifest.files@[i].id@
                && r.files@[i].path@ == manifest.files@[i].path@,
{
    assert forall|i: int| 0 <= i < r.files@.len() implies (#[trigger] r.files@[i]).id@
        == manifest.files@[i].id@ && r.files@[i].path@ == manifest.files@[i].path@ by {
        assert(row_for(r.files@[i], manifest.files@[i], status, outcomes.lookup(manifest.files@[i].path@)));
    }
}

proof fn lemma_count_all(files: Seq<SessionFileRecord>, status: Seq<char>)
    requires
        forall|i: int| 0 <= i < files.len() ==> (#[trigger] files[i]).status@ == status,
    ensures
        count_status(files, status) == files.len(),
    decreases files.len(),
{
    if files.len() > 0 {
        assert forall|i: int| 0 <= i < files.drop_last().len() implies (
        #[trigger] files.drop_last()[i]).status@ == status by {
            assert(files.drop_last()[i] == files[i]);
        }
        lemma_count_all(files.drop_last(), status);
    }
}

/// Archiving a failed session with no outcomes recorded and no summary
/// gives every row the status `failed` and a failed total equal to the
/// number of manifest files (stored counts saturate at `i32::MAX`, so the
/// number of files is taken to be no more than that).
pub proof fn failed_archive_totals_law(
    r: SessionRecord,
    manifest: SessionManifest,
    outcomes: OutcomeMap,
)
    requires
        manifest.files@.len() <= i32::MAX,
        forall|p: Seq<char>| outcomes.lookup(p) is None,
        r.files@.len() == manifest.files@.len(),
        forall|i: int|
            0 <= i < r.files@.len() ==> row_for(
                #[trigger] r.files@[i],
                manifest.files@[i],
                "failed"@,
                outcomes.lookup(manifest.files@[i].path@),
            ),
        totals_match(r, None),
    ensures
        forall|i: int| 0 <= i < r.files@.len() ==> (#[trigger] r.files@[i]).status@ == "failed"@,
        r.failed == manifest.files@.len(),
        r.total == manifest.files@.len(),
{
    archive_without_outcomes_law(r, manifest, "failed"@, outcomes);
    lemma_count_all(r.files@, "failed"@);
}

/// A file with no recorded outcome takes its status from the session: every
/// such row of a cancelled session reads `cancelled`, and of a failed
/// session `failed`.
pub proof fn unrecorded_files_follow_session_law(
    row: SessionFileRecord,
    entry: FileEntry,
    session_status: Seq<char>,
)
    requires
        row_for(row, entry, session_status, None),
    ensures
        session_status == "cancelled"@ ==> row.status@ == "cancelled"@,
        session_status == "failed"@ ==> row.status@ == "failed"@,
        row.transcript_path is None && row.json_path is None && row.error is None,
{
    if session_status == "failed"@ {
        assert(session_status != "cancelled"@) by {
            reveal_strlit("failed");
            reveal_strlit("cancelled");
            assert("failed"@.len() != "cancelled"@.len());
        }
    }
}

/// Archiving a manifest with no outcomes recorded and status `cancelled`
/// (or `failed`) gives every one of its rows that status, and keeps exactly
/// one row per manifest file.
pub proof fn archive_without_outcomes_law(
    r: SessionRecord,
    manifest: SessionManifest,
    status: Seq<char>,
    outcomes: OutcomeMap,
)
    requires
        forall|p: Seq<char>| outcomes.lookup(p) is None,
        r.files@.len() == manifest.files@.len(),
        forall|i: int|
            0 <= i < r.files@.len() ==> row_for(
                #[trigger] r.files@[i],
                manifest.files@[i],
                status,
                outcomes.lookup(manifest.files@[i].path@),
            ),
    ensures
        r.files@.len() == manifest.files@.len(),
        status == "cancelled"@ ==> forall|i: int|
            0 <= i < r.files@.len() ==> (#[trigger] r.files@[i]).status@ == "cancelled"@,
        status == "failed"@ ==> forall|i: int|
            0 <= i < r.files@.len() ==> (#[trigger] r.files@[i]).status@ == "failed"@,
{
    assert forall|i: int| 0 <= i < r.files@.len() implies row_for(
        #[trigger] r.files@[i],
        manifest.files@[i],
        status,
        None,
    ) by {
        assert(outcomes.lookup(manifest.files@[i].path@) is None);
    }
    assert forall|i: int| 0 <= i < r.files@.len() implies (status == "cancelled"@ ==> (
    #[trigger] r.files@[i]).status@ == "cancelled"@) && (status == "failed"@ ==> r.files@[i].status@
        == "failed"@) by {
        unrecorded_files_follow_session_law(r.files@[i], manifest.files@[i], status);
    }
}

} // verus!

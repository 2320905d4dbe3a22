//! The session manifest: the job specification the worker reads.
use crate::registry::{extend_strings, views};
use crate::text::{all_ws, is_blank, owned};
use vstd::prelude::*;

verus! {

/// One file the caller queued.
#[derive(Debug, Clone, PartialEq, Eq)]
pub struct QueueItem {
    pub id: String,
    pub path: String,
    pub status: String,
}

/// What the caller asked of the transcription run.
#[derive(Debug, Clone, PartialEq, Eq)]
pub struct TranscriptionSettings {
    pub output_format: String,
    pub recursive: bool,
    pub overwrite: bool,
    pub max_retries: u32,
    pub extensions: Vec<String>,
    pub ffmpeg_fallback: bool,
    pub dry_run: bool,
    pub notifications_enabled: bool,
    pub notify_on_complete: bool,
    pub notify_on_error: bool,
}

/// One file of a manifest.
#[derive(Debug, Clone, PartialEq, Eq)]
pub struct FileEntry {
    pub id: String,
    pub path: String,
    pub status: String,
}

/// The job specification written before the worker starts.
#[derive(Debug, Clone, PartialEq, Eq)]
pub struct SessionManifest {
    pub session_id: String,
    pub created_at: String,
    pub provider: String,
    pub model: String,
    pub output_dir: String,
    pub settings: TranscriptionSettings,
    pub files: Vec<FileEntry>,
}

/// The status a queued file has when none was given.
pub fn default_status() -> (r: String)
    ensures
        r@ == "queued"@,
{
    String::from_str("queued")
}

/// The extensions transcribed when none are configured.
pub fn default_extensions() -> (r: Vec<String>)
    ensures
        views(r@) == seq!["mp3"@, "wav"@, "m4a"@],
{
    let mut v: Vec<String> = Vec::new();
    v.push(String::from_str("mp3"));
    v.push(String::from_str("wav"));
    v.push(String::from_str("m4a"));
    assert(views(v@) =~= seq!["mp3"@, "wav"@, "m4a"@]);
    v
}

/// The output format used when none is configured.
pub fn default_output_format() -> (r: String)
    ensures
        r@ == "both"@,
{
    String::from_str("both")
}

/// Settings that are on unless configured otherwise.
pub fn default_true() -> (r: bool)
    ensures
        r,
{
    true
}

/// Notifications are on unless configured otherwise.
pub fn default_notifications_enabled() -> (r: bool)
    ensures
        r,
{
    true
}

/// Completion notifications are on unless configured otherwise.
pub fn default_notify_on_complete() -> (r: bool)
    ensures
        r,
{
    true
}

/// Failure notifications are on unless configured otherwise.
pub fn default_notify_on_error() -> (r: bool)
    ensures
        r,
{
    true
}

impl Default for TranscriptionSettings {
    fn default() -> (r: Self)
        ensures
            r.output_format@ == "both"@,
            r.recursive,
            !r.overwrite,
            r.max_retries == 1,
            views(r.extensions@) == seq!["mp3"@, "wav"@, "m4a"@],
            r.ffmpeg_fallback,
            !r.dry_run,
            r.notifications_enabled,
            r.notify_on_complete,
            r.notify_on_error,
    {
        TranscriptionSettings {
            output_format: default_output_format(),
            recursive: true,
            overwrite: false,
            max_retries: 1,
            extensions: default_extensions(),
            ffmpeg_fallback: true,
            dry_run: false,
            notifications_enabled: default_notifications_enabled(),
            notify_on_complete: default_notify_on_complete(),
            notify_on_error: default_notify_on_error(),
        }
    }
}

/// Two settings values that say the same.
pub open spec fn same_settings(a: TranscriptionSettings, b: TranscriptionSettings) -> bool {
    &&& a.output_format@ == b.output_format@
    &&& a.recursive == b.recursive
    &&& a.overwrite == b.overwrite
    &&& a.max_retries == b.max_retries
    &&& views(a.extensions@) == views(b.extensions@)
    &&& a.ffmpeg_fallback == b.ffmpeg_fallback
    &&& a.dry_run == b.dry_run
    &&& a.notifications_enabled == b.notifications_enabled
    &&& a.notify_on_complete == b.notify_on_complete
    &&& a.notify_on_error == b.notify_on_error
}

impl TranscriptionSettings {
    /// A copy of these settings.
    pub fn duplicate(&self) -> (r: TranscriptionSettings)
        ensures
            same_settings(r, *self),
    {
        let mut extensions: Vec<String> = Vec::new();
        extend_strings(&mut extensions, self.extensions.as_slice());
        assert(views(extensions@) =~= views(self.extensions@));
        TranscriptionSettings {
            output_format: owned(self.output_format.as_str()),
            recursive: self.recursive,
            overwrite: self.overwrite,
            max_retries: self.max_retries,
            extensions,
            ffmpeg_fallback: self.ffmpeg_fallback,
            dry_run: self.dry_run,
            notifications_enabled: self.notifications_enabled,
            notify_on_complete: self.notify_on_complete,
            notify_on_error: self.notify_on_error,
        }
    }
}

/// The manifest status of a queued file: its own, or `queued` where it is
/// blank.
pub open spec fn entry_status(item_status: Seq<char>) -> Seq<char> {
    if all_ws(item_status) {
        "queued"@
    } else {
        item_status
    }
}

/// Whether `e` is the manifest entry for the queued file `q`.
pub open spec fn entry_for(e: FileEntry, q: QueueItem) -> bool {
    e.id@ == q.id@ && e.path@ == q.path@ && e.status@ == entry_status(q.status@)
}

/// A transcription request needs at least one queued file.
pub fn check_start_items(items: &[QueueItem]) -> (r: Result<(), String>)
    ensures
        items@.len() == 0 ==> (r is Err && r->Err_0@ == "No queue items provided"@),
        items@.len() > 0 ==> r is Ok,
{
    if items.len() == 0 {
        return Err(String::from_str("No queue items provided"));
    }
    Ok(())
}

/// The manifest entries for the queued files, in order.
pub fn file_entries(items: &[QueueItem]) -> (r: Vec<FileEntry>)
    ensures
        r@.len() == items@.len(),
        forall|i: int| 0 <= i < items@.len() ==> entry_for(#[trigger] r@[i], items@[i]),
{
    let n = items.len();
    let mut out: Vec<FileEntry> = Vec::new();
    let mut i: usize = 0;
    while i < n
        invariant
            0 <= i <= n,
            n == items@.len(),
            out@.len() == i,
            forall|k: int| 0 <= k < i ==> entry_for(#[trigger] out@[k], items@[k]),
        decreases n - i,
    {
        let item = &items[i];
        let status = if is_blank(item.status.as_str()) {
            default_status()
        } else {
            owned(item.status.as_str())
        };
        out.push(FileEntry { id: owned(item.id.as_str()), path: owned(item.path.as_str()), status });
        i = i + 1;
    }
    out
}

/// Whether `m` records the given request under `session_id` and
/// `created_at`.
pub open spec fn manifest_for(
    m: SessionManifest,
    session_id: Seq<char>,
    created_at: Seq<char>,
    provider: Seq<char>,
    model: Seq<char>,
    output_dir: Seq<char>,
    items: Seq<QueueItem>,
    settings: TranscriptionSettings,
) -> bool {
    &&& m.session_id@ == session_id
    &&& m.created_at@ == created_at
    &&& m.provider@ == provider
    &&& m.model@ == model
    &&& m.output_dir@ == output_dir
    &&& same_settings(m.settings, settings)
    &&& m.files@.len() == items.len()
    &&& forall|i: int| 0 <= i < items.len() ==> entry_for(#[trigger] m.files@[i], items[i])
}

/// The manifest for a request, under a given id and creation time.
pub fn build_manifest(
    session_id: String,
    created_at: String,
    provider: &str,
    model: &str,
    output_dir: &str,
    items: &[QueueItem],
    settings: &TranscriptionSettings,
) -> (r: SessionManifest)
    ensures
        manifest_for(
            r,
            session_id@,
            created_at@,
            provider@,
            model@,
            output_dir@,
            items@,
            *settings,
        ),
{
    SessionManifest {
        session_id,
        created_at,
        provider: owned(provider),
        model: owned(model),
        output_dir: owned(output_dir),
        settings: settings.duplicate(),
        files: file_entries(items),
    }
}

/// A lower-case hexadecimal digit.
pub open spec fn is_lower_hex(c: char) -> bool {
    ('0' <= c && c <= '9') || ('a' <= c && c <= 'f')
}

/// The hyphenated lower-case form of a UUID: 36 characters, hyphens at
/// positions 8, 13, 18 and 23, hexadecimal digits elsewhere.
pub open spec fn uuid_shaped(s: Seq<char>) -> bool {
    s.len() == 36 && forall|i: int|
        0 <= i < 36 ==> if i == 8 || i == 13 || i == 18 || i == 23 {
            #[trigger] s[i] == '-'
        } else {
            is_lower_hex(s[i])
        }
}

/// A random (version 4, RFC 4122 variant) UUID in hyphenated lower-case
/// form: version digit `4` at position 14, variant digit `8`, `9`, `a` or
/// `b` at position 19.
pub open spec fn uuid_v4_shaped(s: Seq<char>) -> bool {
    &&& uuid_shaped(s)
    &&& s[14] == '4'
    &&& (s[19] == '8' || s[19] == '9' || s[19] == 'a' || s[19] == 'b')
}

/// An ASCII decimal digit.
pub open spec fn is_decimal_digit(c: char) -> bool {
    '0' <= c && c <= '9'
}

/// A UTC RFC 3339 time with milliseconds, as chrono writes it: a year (four
/// digits for years 0 to 9999, else a sign and at least four digits), then
/// `-MM-DDTHH:MM:SS.mmmZ`.
pub open spec fn utc_millis_timestamp(s: Seq<char>) -> bool {
    let n = s.len() as int;
    let y = n - 20;
    &&& n >= 24
    &&& forall|i: int|
        y <= i < n ==> if i == y || i == y + 3 {
            #[trigger] s[i] == '-'
        } else if i == y + 6 {
            s[i] == 'T'
        } else if i == y + 9 || i == y + 12 {
            s[i] == ':'
        } else if i == y + 15 {
            s[i] == '.'
        } else if i == y + 19 {
            s[i] == 'Z'
        } else {
            is_decimal_digit(s[i])
        }
    &&& (y == 4 || s[0] == '+' || s[0] == '-')
    &&& forall|i: int| 0 < i < y ==> is_decimal_digit(#[trigger] s[i])
    &&& (y == 4 ==> is_decimal_digit(s[0]))
}

/// Relies on `uuid::Uuid::new_v4`, which sets the version and variant bits
/// of a random value, and its `Display`, which writes the hyphenated
/// lower-case form. The value is random.
#[verifier::external_body]
pub fn new_session_id() -> (r: String)
    ensures
        uuid_v4_shaped(r@),
{
    uuid::Uuid::new_v4().to_string()
}

/// Relies on `chrono::Utc::now` and `to_rfc3339_opts` with millisecond
/// precision and `Z` for UTC. The value is the current time.
#[verifier::external_body]
pub fn created_at_now() -> (r: String)
    ensures
        utc_millis_timestamp(r@),
{
    chrono::Utc::now().to_rfc3339_opts(chrono::SecondsFormat::Millis, true)
}

/// The manifest for a request, under a fresh session id and the current
/// time.
pub fn prepare_manifest(
    provider: &str,
    model: &str,
    output_dir: &str,
    items: &[QueueItem],
    settings: &TranscriptionSettings,
) -> (r: SessionManifest)
    ensures
        uuid_v4_shaped(r.session_id@),
        utc_millis_timestamp(r.created_at@),
        manifest_for(
            r,
            r.session_id@,
            r.created_at@,
            provider@,
            model@,
            output_dir@,
            items@,
            *settings,
        ),
{
    let session_id = new_session_id();
    let created_at = created_at_now();
    build_manifest(session_id, created_at, provider, model, output_dir, items, settings)
}

/// The file name of a manifest: the session id followed by `.json`.
pub fn manifest_file_name(session_id: &str) -> (r: String)
    ensures
        r@ == session_id@ + ".json"@,
{
    let mut out = owned(session_id);
    out.append(".json");
    out
}

/// The name of the temporary file a manifest is written to before it is
/// renamed into place.
pub fn manifest_temp_name(session_id: &str) -> (r: String)
    ensures
        r@ == session_id@ + ".tmp"@,
{
    let mut out = owned(session_id);
    out.append(".tmp");
    out
}

} // verus!

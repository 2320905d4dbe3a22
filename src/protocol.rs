//! The worker's command line, and the newline-delimited JSON events it
//! prints on standard output.
use crate::json::{
    as_text, as_unsigned, decode_json, decoded_json, get, get_in, member, member_of, text_of,
    unsigned_of, Json,
};
use crate::outcome::{opt_view, FileOutcome, OutcomeMap, OutcomeModel};
use crate::registry::{python_uv_command_args, uv_args, views, ProviderRuntime, RuntimeModel};
use crate::text::{
    all_ws, ascii_lowercase, contains_seq, is_blank, lower, owned, push_signed_decimal, signed_decimal,
    str_contains, str_eq,
};
use vstd::prelude::*;

verus! {

/// A program and its arguments.
#[derive(Debug, Clone, PartialEq, Eq)]
pub struct LaunchCommand {
    pub program: String,
    pub args: Vec<String>,
}

/// The command that starts the worker of a local runtime; a remote API has
/// none. For a managed environment either form of the `uv` arguments may
/// come back (see `python_uv_command_args`).
pub fn launch_command_for_runtime(runtime: &ProviderRuntime) -> (r: Option<LaunchCommand>)
    ensures
        runtime@ matches RuntimeModel::SwiftNative { binary_path, .. } ==> (r is Some
            && r.unwrap().program@ == binary_path && r.unwrap().args@.len() == 0),
        runtime@ matches RuntimeModel::PythonUv { package, entry_point } ==> (r is Some
            && r.unwrap().program@ == "uv"@ && (views(r.unwrap().args@) == uv_args(
            package,
            entry_point,
            Seq::empty(),
            true,
        ) || views(r.unwrap().args@) == uv_args(package, entry_point, Seq::empty(), false))),
        runtime@ is CloudAPI ==> r is None,
{
    match runtime {
        ProviderRuntime::SwiftNative { binary_path, .. } => Some(
            LaunchCommand { program: binary_path.clone(), args: Vec::new() },
        ),
        ProviderRuntime::PythonUv { package, entry_point } => {
            let none: Vec<String> = Vec::new();
            proof {
                assert(views(none@) =~= Seq::<Seq<char>>::empty());
            }
            Some(
                LaunchCommand {
                    program: String::from_str("uv"),
                    args: python_uv_command_args(package.as_str(), entry_point.as_str(), none.as_slice()),
                },
            )
        },
        ProviderRuntime::CloudAPI { .. } => None,
    }
}

/// The model version named by a model directory: `v2` where its name holds
/// `v2` in any case, `v3` otherwise.
pub open spec fn model_version_of(model_dir: Seq<char>) -> Seq<char> {
    if contains_seq(lower(model_dir), "v2"@) {
        "v2"@
    } else {
        "v3"@
    }
}

/// The model version named by a model directory.
pub fn infer_model_version_from_model_dir(model_dir: &str) -> (r: String)
    ensures
        r@ == model_version_of(model_dir@),
{
    let lowered = ascii_lowercase(model_dir);
    if str_contains(lowered.as_str(), "v2") {
        String::from_str("v2")
    } else {
        String::from_str("v3")
    }
}

/// The flags that point the worker at its manifest and output directory.
pub open spec fn session_flags(runtime: RuntimeModel, manifest_path: Seq<char>, output_dir: Seq<
    char,
>) -> Seq<Seq<char>> {
    let model_flags = match runtime {
        RuntimeModel::SwiftNative { model_dir, .. } => seq![
            "--model-dir"@,
            model_dir,
            "--model-version"@,
            model_version_of(model_dir),
        ],
        _ => Seq::empty(),
    };
    model_flags + seq!["--manifest"@, manifest_path, "--output-dir"@, output_dir]
}

/// Why a remote API cannot be launched here.
pub const CLOUD_LAUNCH_ERROR: &'static str =
    "Cloud API providers do not support local worker launching";

/// The full worker command for a session: the runtime's command followed by
/// the model flags (native runtime only) and the manifest and output flags.
pub fn command_args_for_runtime(runtime: &ProviderRuntime, manifest_path: &str, output_dir: &str) -> (r:
    Result<LaunchCommand, String>)
    ensures
        runtime@ is CloudAPI ==> (r is Err && r->Err_0@ == CLOUD_LAUNCH_ERROR@),
        runtime@ matches RuntimeModel::SwiftNative { binary_path, .. } ==> (r is Ok
            && r->Ok_0.program@ == binary_path && views(r->Ok_0.args@) == session_flags(
            runtime@,
            manifest_path@,
            output_dir@,
        )),
        runtime@ matches RuntimeModel::PythonUv { package, entry_point } ==> (r is Ok
            && r->Ok_0.program@ == "uv"@ && (views(r->Ok_0.args@) == uv_args(
            package,
            entry_point,
            Seq::empty(),
            true,
        ) + session_flags(runtime@, manifest_path@, output_dir@) || views(r->Ok_0.args@)
            == uv_args(package, entry_point, Seq::empty(), false) + session_flags(
            runtime@,
            manifest_path@,
            output_dir@,
        ))),
{
    let launch = match launch_command_for_runtime(runtime) {
        Some(l) => l,
        None => {
            return Err(String::from_str(CLOUD_LAUNCH_ERROR));
        },
    };
    let program = launch.program;
    let mut args = launch.args;
    let ghost base = views(args@);
    if let ProviderRuntime::SwiftNative { model_dir, .. } = runtime {
        args.push(String::from_str("--model-dir"));
        args.push(model_dir.clone());
        args.push(String::from_str("--model-version"));
        args.push(infer_model_version_from_model_dir(model_dir.as_str()));
    }
    args.push(String::from_str("--manifest"));
    args.push(String::from_str(manifest_path));
    args.push(String::from_str("--output-dir"));
    args.push(String::from_str(output_dir));
    assert(views(args@) =~= base + session_flags(runtime@, manifest_path@, output_dir@));
    Ok(LaunchCommand { program, args })
}

/// Why a line of worker output could not be read as JSON.
#[derive(Debug, Clone, Copy, PartialEq, Eq)]
pub struct MalformedLine;

/// One line of worker output: nothing for a blank line, the JSON value it
/// holds, or an error where it is not JSON.
pub fn parse_worker_line(line: &str) -> (r: Result<Option<Json>, MalformedLine>)
    ensures
        all_ws(line@) ==> r == Ok::<Option<Json>, MalformedLine>(None),
        !all_ws(line@) && decoded_json(line@) is Some ==> r == Ok::<Option<Json>, MalformedLine>(
            decoded_json(line@),
        ),
        !all_ws(line@) && decoded_json(line@) is None ==> r is Err,
{
    if is_blank(line) {
        return Ok(None);
    }
    match decode_json(line) {
        Some(v) => Ok(Some(v)),
        None => Err(MalformedLine),
    }
}

/// Totals the worker reports at the end of a run; the duration is the
/// decimal text of the reported number of seconds.
#[derive(Debug, Clone, PartialEq, Eq)]
pub struct SessionSummary {
    pub total: u64,
    pub processed: u64,
    pub skipped: u64,
    pub failed: u64,
    pub duration_seconds: String,
}

/// A summary with its duration text as a character sequence.
pub struct SummaryModel {
    pub total: u64,
    pub processed: u64,
    pub skipped: u64,
    pub failed: u64,
    pub duration_seconds: Seq<char>,
}

impl View for SessionSummary {
    type V = SummaryModel;

    open spec fn view(&self) -> SummaryModel {
        SummaryModel {
            total: self.total,
            processed: self.processed,
            skipped: self.skipped,
            failed: self.failed,
            duration_seconds: self.duration_seconds@,
        }
    }
}

/// The view of an optional summary.
pub open spec fn summary_view(o: Option<SessionSummary>) -> Option<SummaryModel> {
    match o {
        Some(s) => Some(s@),
        None => None,
    }
}

/// Whether the value's `event` member is the string `name`.
pub open spec fn event_is(j: Json, name: Seq<char>) -> bool {
    text_of(member(j, "event"@)) == Some(name)
}

/// A count, or 0 where the member is absent or not a whole number.
pub open spec fn count_of(j: Option<Json>) -> u64 {
    match unsigned_of(j) {
        Some(n) => n,
        None => 0,
    }
}

/// The decimal text of a number, or `0` where the member is absent or not a
/// number.
pub open spec fn seconds_text_of(j: Option<Json>) -> Seq<char> {
    match j {
        Some(Json::Number(n)) => n.text@,
        _ => "0"@,
    }
}

/// The summary a `summary` event states.
pub open spec fn summary_of(j: Json) -> Option<SummaryModel> {
    if event_is(j, "summary"@) {
        Some(
            SummaryModel {
                total: count_of(member(j, "total"@)),
                processed: count_of(member(j, "processed"@)),
                skipped: count_of(member(j, "skipped"@)),
                failed: count_of(member(j, "failed"@)),
                duration_seconds: seconds_text_of(member(j, "duration_seconds"@)),
            },
        )
    } else {
        None
    }
}

/// The message of a `fatal_error` event.
pub open spec fn fatal_error_of(j: Json) -> Option<Seq<char>> {
    if event_is(j, "fatal_error"@) {
        text_of(member(j, "error"@))
    } else {
        None
    }
}

/// The file path and outcome that a per-file event states.
pub open spec fn outcome_of(j: Json) -> Option<(Seq<char>, OutcomeModel)> {
    let event = text_of(member(j, "event"@));
    let file = text_of(member(j, "file"@));
    let output = member(j, "output"@);
    if event is None || file is None {
        None
    } else if event == Some("file_done"@) {
        Some(
            (
                file.unwrap(),
                OutcomeModel {
                    status: "success"@,
                    transcript_path: text_of(member_of(output, "txt"@)),
                    json_path: text_of(member_of(output, "json"@)),
                    error: None,
                },
            ),
        )
    } else if event == Some("file_skipped"@) {
        Some(
            (
                file.unwrap(),
                OutcomeModel {
                    status: "skipped"@,
                    transcript_path: text_of(member_of(output, "txt"@)),
                    json_path: text_of(member_of(output, "json"@)),
                    error: text_of(member(j, "reason"@)),
                },
            ),
        )
    } else if event == Some("file_failed"@) {
        Some(
            (
                file.unwrap(),
                OutcomeModel {
                    status: "failed"@,
                    transcript_path: None,
                    json_path: None,
                    error: text_of(member(j, "error"@)),
                },
            ),
        )
    } else {
        None
    }
}

/// Whether the value's `event` member is the string `name`.
pub fn event_matches(value: &Json, name: &str) -> (r: bool)
    ensures
        r == event_is(*value, name@),
{
    match as_text(get(value, "event")) {
        Some(e) => str_eq(e.as_str(), name),
        None => false,
    }
}

/// A count member, 0 where absent.
fn count_member(value: &Json, key: &str) -> (r: u64)
    ensures
        r == count_of(member(*value, key@)),
{
    match as_unsigned(get(value, key)) {
        Some(n) => n,
        None => 0,
    }
}

/// The summary of a `summary` event.
pub fn parse_summary_event(value: &Json) -> (r: Option<SessionSummary>)
    ensures
        r matches Some(s) ==> summary_of(*value) == Some(s@),
        r is None ==> summary_of(*value) is None,
{
    if !event_matches(value, "summary") {
        return None;
    }
    let duration_seconds = match get(value, "duration_seconds") {
        Some(Json::Number(n)) => owned(n.text.as_str()),
        _ => String::from_str("0"),
    };
    Some(
        SessionSummary {
            total: count_member(value, "total"),
            processed: count_member(value, "processed"),
            skipped: count_member(value, "skipped"),
            failed: count_member(value, "failed"),
            duration_seconds,
        },
    )
}

/// The message of a `fatal_error` event.
pub fn parse_fatal_error(value: &Json) -> (r: Option<String>)
    ensures
        r matches Some(s) ==> fatal_error_of(*value) == Some(s@),
        r is None ==> fatal_error_of(*value) is None,
{
    if !event_matches(value, "fatal_error") {
        return None;
    }
    as_text(get(value, "error"))
}

/// The file path and outcome of a `file_done`, `file_skipped` or
/// `file_failed` event.
pub fn parse_file_outcome(value: &Json) -> (r: Option<(String, FileOutcome)>)
    ensures
        r matches Some((p, o)) ==> outcome_of(*value) == Some((p@, o@)),
        r is None ==> outcome_of(*value) is None,
{
    let event_name = match as_text(get(value, "event")) {
        Some(e) => e,
        None => {
            return None;
        },
    };
    let file_path = match as_text(get(value, "file")) {
        Some(f) => f,
        None => {
            return None;
        },
    };
    let output = get(value, "output");
    let e = event_name.as_str();
    if str_eq(e, "file_done") {
        Some(
            (
                file_path,
                FileOutcome {
                    status: String::from_str("success"),
                    transcript_path: as_text(get_in(output, "txt")),
                    json_path: as_text(get_in(output, "json")),
                    error: None,
                },
            ),
        )
    } else if str_eq(e, "file_skipped") {
        Some(
            (
                file_path,
                FileOutcome {
                    status: String::from_str("skipped"),
                    transcript_path: as_text(get_in(output, "txt")),
                    json_path: as_text(get_in(output, "json")),
                    error: as_text(get(value, "reason")),
                },
            ),
        )
    } else if str_eq(e, "file_failed") {
        Some(
            (
                file_path,
                FileOutcome {
                    status: String::from_str("failed"),
                    transcript_path: None,
                    json_path: None,
                    error: as_text(get(value, "error")),
                },
            ),
        )
    } else {
        None
    }
}

/// What becomes of one line of worker output.
#[derive(Debug)]
pub enum LineDisposition {
    /// A blank line, dropped.
    Ignored,
    /// A JSON value, passed on to listeners as it is.
    Forward(Json),
    /// A line that is not JSON, passed on as raw text.
    Raw(String),
}

/// What has been read from a worker's standard output so far.
#[derive(Debug)]
pub struct StreamState {
    pub latest_summary: Option<SessionSummary>,
    pub fatal_error: Option<String>,
    pub outcomes: OutcomeMap,
}

impl StreamState {
    /// Nothing read yet.
    pub fn new() -> (r: StreamState)
        ensures
            r.latest_summary is None,
            r.fatal_error is None,
            forall|p: Seq<char>| r.outcomes.lookup(p) is None,
    {
        StreamState { latest_summary: None, fatal_error: None, outcomes: OutcomeMap::new() }
    }

    /// Takes in one line of worker output. A blank line changes nothing; a
    /// line that is not JSON changes nothing and is handed back as raw text;
    /// a JSON value is handed back to be forwarded, and a summary or fatal
    /// error in it replaces the one kept, and a per-file outcome in it
    /// replaces the one kept for its path.
    pub fn consume_line(&mut self, line: &str) -> (r: LineDisposition)
        ensures
            all_ws(line@) ==> r is Ignored,
            !all_ws(line@) && decoded_json(line@) is None ==> (r matches LineDisposition::Raw(t)
                && t@ == line@),
            !all_ws(line@) && decoded_json(line@) is Some ==> r == LineDisposition::Forward(
                decoded_json(line@).unwrap(),
            ),
            !(r is Forward) ==> *final(self) == *old(self),
            r matches LineDisposition::Forward(j) ==> {
                &&& summary_view(final(self).latest_summary) == match summary_of(j) {
                    Some(s) => Some(s),
                    None => summary_view(old(self).latest_summary),
                }
                &&& opt_view(final(self).fatal_error) == match fatal_error_of(j) {
                    Some(s) => Some(s),
                    None => opt_view(old(self).fatal_error),
                }
                &&& match outcome_of(j) {
                    Some((p, o)) => final(self).outcomes.lookup(p) == Some(o) && forall|q: Seq<char>|
                        q != p ==> final(self).outcomes.lookup(q) == old(self).outcomes.lookup(q),
                    None => forall|q: Seq<char>|
                        final(self).outcomes.lookup(q) == old(self).outcomes.lookup(q),
                }
            },
    {
        match parse_worker_line(line) {
            Ok(Some(value)) => {
                if let Some(summary) = parse_summary_event(&value) {
                    self.latest_summary = Some(summary);
                }
                if let Some(error) = parse_fatal_error(&value) {
                    self.fatal_error = Some(error);
                }
                if let Some((path, outcome)) = parse_file_outcome(&value) {
                    self.outcomes.insert(path, outcome);
                }
                LineDisposition::Forward(value)
            },
            Ok(None) => LineDisposition::Ignored,
            Err(_) => LineDisposition::Raw(owned(line)),
        }
    }
}

/// Exit codes that count as a completed session: success, and the worker's
/// partial success.
pub open spec fn completed_exit(exit_code: i32) -> bool {
    exit_code == 0 || exit_code == 2
}

/// Whether the worker's exit code counts as a completed session.
pub fn is_completed_exit(exit_code: i32) -> (r: bool)
    ensures
        r == completed_exit(exit_code),
{
    exit_code == 0 || exit_code == 2
}

/// The terminal status recorded for a worker that exited on its own.
pub fn session_status_for_exit(exit_code: i32) -> (r: &'static str)
    ensures
        completed_exit(exit_code) ==> r@ == "completed"@,
        !completed_exit(exit_code) ==> r@ == "failed"@,
{
    if is_completed_exit(exit_code) {
        "completed"
    } else {
        "failed"
    }
}

/// Which desktop notifications the user wants.
#[derive(Debug, Clone, Copy, PartialEq, Eq)]
pub struct NotificationPreferences {
    pub notifications_enabled: bool,
    pub notify_on_complete: bool,
    pub notify_on_error: bool,
}

impl Default for NotificationPreferences {
    fn default() -> (r: Self)
        ensures
            r.notifications_enabled && r.notify_on_complete && r.notify_on_error,
    {
        NotificationPreferences {
            notifications_enabled: true,
            notify_on_complete: true,
            notify_on_error: true,
        }
    }
}

/// The notification to show when a session ends.
#[derive(Debug, Clone, Copy, PartialEq, Eq)]
pub enum NotificationKind {
    Nothing,
    Completion,
    Failure,
}

/// A notification is shown only where notifications are enabled, the system
/// has granted permission, and the preference for this kind of ending is
/// set.
pub fn notification_for(
    preferences: NotificationPreferences,
    permission_granted: bool,
    exit_code: i32,
) -> (r: NotificationKind)
    ensures
        r == (if !preferences.notifications_enabled || !permission_granted {
            NotificationKind::Nothing
        } else if completed_exit(exit_code) {
            if preferences.notify_on_complete {
                NotificationKind::Completion
            } else {
                NotificationKind::Nothing
            }
        } else if preferences.notify_on_error {
            NotificationKind::Failure
        } else {
            NotificationKind::Nothing
        }),
{
    if !preferences.notifications_enabled || !permission_granted {
        return NotificationKind::Nothing;
    }
    if is_completed_exit(exit_code) {
        if preferences.notify_on_complete {
            NotificationKind::Completion
        } else {
            NotificationKind::Nothing
        }
    } else if preferences.notify_on_error {
        NotificationKind::Failure
    } else {
        NotificationKind::Nothing
    }
}

/// The text of a failure notification: the worker's fatal error where it
/// reported one that is not blank, else its exit code.
pub fn failure_notification_detail(exit_code: i32, fatal_error: Option<&str>) -> (r: String)
    ensures
        (fatal_error is Some && !all_ws(fatal_error.unwrap()@)) ==> r@ == fatal_error.unwrap()@,
        !(fatal_error is Some && !all_ws(fatal_error.unwrap()@)) ==> r@ == "Worker exited with code "@
            + signed_decimal(exit_code as int) + "."@,
{
    if let Some(error) = fatal_error {
        if !is_blank(error) {
            return owned(error);
        }
    }
    let mut out = String::from_str("Worker exited with code ");
    push_signed_decimal(&mut out, exit_code);
    out.append(".");
    out
}

/// The title of a completion notification: it mentions failures where the
/// summary reports any.
pub fn completion_notification_title(summary: Option<&SessionSummary>) -> (r: &'static str)
    ensures
        (summary is Some && summary.unwrap().failed > 0) ==> r@
            == "Transcription Complete (with failures)"@,
        !(summary is Some && summary.unwrap().failed > 0) ==> r@ == "Transcription Complete"@,
{
    match summary {
        Some(s) => if s.failed > 0 {
            "Transcription Complete (with failures)"
        } else {
            "Transcription Complete"
        },
        None => "Transcription Complete",
    }
}

} // verus!

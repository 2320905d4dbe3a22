//! The providers this library knows, their runtimes, what they can do, and
//! how their availability is probed.
use crate::text::{join, push_char, str_eq};
use vstd::prelude::*;

verus! {

pub const COREML_PROVIDER_ID: &'static str = "coreml-local";

pub const LEGACY_COREML_PROVIDER_ID: &'static str = "parakeet-coreml";

pub const WHISPER_OPENAI_PROVIDER_ID: &'static str = "whisper-openai";

pub const FASTER_WHISPER_PROVIDER_ID: &'static str = "faster-whisper";

pub const SWIFT_TOOL_NAME: &'static str = "coreml-batch";

pub const LEGACY_SWIFT_TOOL_NAME: &'static str = "parakeet-batch";

/// How long a capability probe may run, in seconds.
pub const CAPABILITY_TIMEOUT_SECS: u64 = 5;

pub const UV_INSTALL_URL: &'static str = "https://docs.astral.sh/uv/getting-started/installation/";

pub const SWIFT_BUILD_HINT: &'static str =
    "Build the Swift worker with `cd swift-worker && swift build -c release`, then retry.";

pub const CLOUD_SETUP_HINT: &'static str = "Set the API base URL and credentials in settings before use.";

/// The concrete way to run a provider's worker.
#[derive(Debug, Clone, PartialEq)]
pub enum ProviderRuntime {
    SwiftNative { binary_path: String, model_dir: String },
    PythonUv { package: String, entry_point: String },
    CloudAPI { base_url: String, requires_key: bool },
}

/// A runtime with its strings as character sequences.
pub enum RuntimeModel {
    SwiftNative { binary_path: Seq<char>, model_dir: Seq<char> },
    PythonUv { package: Seq<char>, entry_point: Seq<char> },
    CloudAPI { base_url: Seq<char>, requires_key: bool },
}

impl View for ProviderRuntime {
    type V = RuntimeModel;

    open spec fn view(&self) -> RuntimeModel {
        match self {
            ProviderRuntime::SwiftNative { binary_path, model_dir } => RuntimeModel::SwiftNative {
                binary_path: binary_path@,
                model_dir: model_dir@,
            },
            ProviderRuntime::PythonUv { package, entry_point } => RuntimeModel::PythonUv {
                package: package@,
                entry_point: entry_point@,
            },
            ProviderRuntime::CloudAPI { base_url, requires_key } => RuntimeModel::CloudAPI {
                base_url: base_url@,
                requires_key: *requires_key,
            },
        }
    }
}

/// What a provider reports it can do.
#[derive(Debug, Clone, PartialEq, Default)]
pub struct Capabilities {
    pub supported_models: Vec<String>,
    pub supported_formats: Vec<String>,
    pub max_file_size: Option<u64>,
    pub concurrent_files: Option<u32>,
    pub word_timestamps: Option<bool>,
    pub speaker_diarization: Option<bool>,
    pub language_detection: Option<bool>,
    pub translation: Option<bool>,
}

/// A selectable transcription backend and what the last probe found.
#[derive(Debug, Clone, PartialEq)]
pub struct Provider {
    pub id: String,
    pub name: String,
    pub runtime: ProviderRuntime,
    pub available: bool,
    pub capabilities: Option<Capabilities>,
    pub install_instructions: Option<String>,
}

/// The views of a sequence of strings.
pub open spec fn views(v: Seq<String>) -> Seq<Seq<char>> {
    v.map_values(|s: String| s@)
}

/// Provider ids of earlier releases, mapped to the current ones.
pub open spec fn canonical_id(id: Seq<char>) -> Seq<char> {
    if id == LEGACY_COREML_PROVIDER_ID@ {
        COREML_PROVIDER_ID@
    } else {
        id
    }
}

/// The worker project directory of a managed-environment package.
pub open spec fn project_dir_of(package: Seq<char>) -> Option<Seq<char>> {
    if package == "whisper-batch"@ {
        Some("workers/whisper-batch"@)
    } else if package == "faster-whisper-batch"@ {
        Some("workers/faster-whisper-batch"@)
    } else {
        None
    }
}

/// The arguments to `uv` that run `entry` of `package` with `entry_args`;
/// `project_present` tells whether the worker project directory holds a
/// `pyproject.toml`.
pub open spec fn uv_args(
    package: Seq<char>,
    entry: Seq<char>,
    entry_args: Seq<Seq<char>>,
    project_present: bool,
) -> Seq<Seq<char>> {
    let base = if project_present && project_dir_of(package) is Some {
        seq!["--directory"@, project_dir_of(package).unwrap(), "run"@, entry]
    } else {
        seq!["run"@, "--package"@, package, entry]
    };
    base + entry_args
}

/// `s` with every `-` turned into `_`.
pub open spec fn dashes_to_underscores(s: Seq<char>) -> Seq<char> {
    Seq::new(
        s.len(),
        |i: int|
            if s[i] == '-' {
                '_'
            } else {
                s[i]
            },
    )
}

/// The command that probes a managed-environment package.
pub open spec fn probe_command_text(package: Seq<char>) -> Seq<char> {
    match project_dir_of(package) {
        Some(dir) => "uv --directory "@ + dir + " run "@ + dashes_to_underscores(package)
            + " --capabilities"@,
        None => "uv run --package "@ + package + " "@ + package + " --capabilities"@,
    }
}

/// The remediation text for a runtime that is not available.
pub open spec fn instructions_text(rt: RuntimeModel, uv_available: bool) -> Seq<char> {
    match rt {
        RuntimeModel::SwiftNative { .. } => SWIFT_BUILD_HINT@,
        RuntimeModel::PythonUv { package, .. } => if !uv_available {
            "Install uv ("@ + UV_INSTALL_URL@ + ") and then run provider setup for `"@ + package
                + "`."@
        } else {
            "Install or fix the `"@ + package + "` runtime so `"@ + probe_command_text(package)
                + "` succeeds."@
        },
        RuntimeModel::CloudAPI { .. } => CLOUD_SETUP_HINT@,
    }
}

/// Maps a legacy provider id to its current one; other ids are kept.
pub fn normalize_provider_id(id: &str) -> (r: &str)
    ensures
        r@ == canonical_id(id@),
{
    if str_eq(id, LEGACY_COREML_PROVIDER_ID) {
        COREML_PROVIDER_ID
    } else {
        id
    }
}

/// Relies on `Path::exists`: whether the file system had an entry at `path`
/// when asked. Nothing is promised of the answer.
#[verifier::external_body]
pub(crate) fn path_exists(path: &str) -> bool {
    std::path::Path::new(path).exists()
}

/// Relies on `Path::is_file`: whether `path` named a regular file when
/// asked. Nothing is promised of the answer.
#[verifier::external_body]
pub(crate) fn path_is_file(path: &str) -> bool {
    std::path::Path::new(path).is_file()
}

/// The worker project directory of a managed-environment package.
pub fn worker_project_dir(package: &str) -> (r: Option<String>)
    ensures
        r matches Some(d) ==> project_dir_of(package@) == Some(d@),
        r is None ==> project_dir_of(package@) is None,
{
    if str_eq(package, "whisper-batch") {
        Some(String::from_str("workers/whisper-batch"))
    } else if str_eq(package, "faster-whisper-batch") {
        Some(String::from_str("workers/faster-whisper-batch"))
    } else {
        None
    }
}

/// Appends copies of `items` to `out`.
pub fn extend_strings(out: &mut Vec<String>, items: &[String])
    ensures
        views(final(out)@) == views(old(out)@) + views(items@),
{
    let ghost start = views(out@);
    let n = items.len();
    let mut i: usize = 0;
    while i < n
        invariant
            0 <= i <= n,
            n == items@.len(),
            views(out@) == start + views(items@.subrange(0, i as int)),
        decreases n - i,
    {
        let ghost before = out@;
        let item = items[i].clone();
        out.push(item);
        assert(views(out@) =~= views(before).push(items@[i as int]@));
        assert(views(items@.subrange(0, i + 1)) =~= views(items@.subrange(0, i as int)).push(
            items@[i as int]@,
        ));
        i = i + 1;
    }
    assert(items@.subrange(0, n as int) =~= items@);
}

/// The `uv` arguments that run `entry_point` of `package` with
/// `entry_args`, given whether the worker project is present on disk.
pub fn uv_command_args_with(
    package: &str,
    entry_point: &str,
    entry_args: &[String],
    project_present: bool,
) -> (r: Vec<String>)
    ensures
        views(r@) == uv_args(package@, entry_point@, views(entry_args@), project_present),
{
    let mut args: Vec<String> = Vec::new();
    let dir = worker_project_dir(package);
    match dir {
        Some(d) if project_present => {
            args.push(String::from_str("--directory"));
            args.push(d);
            args.push(String::from_str("run"));
            args.push(String::from_str(entry_point));
        },
        _ => {
            args.push(String::from_str("run"));
            args.push(String::from_str("--package"));
            args.push(String::from_str(package));
            args.push(String::from_str(entry_point));
        },
    }
    let ghost base = views(args@);
    extend_strings(&mut args, entry_args);
    assert(base =~= (if project_present && project_dir_of(package@) is Some {
        seq!["--directory"@, project_dir_of(package@).unwrap(), "run"@, entry_point@]
    } else {
        seq!["run"@, "--package"@, package@, entry_point@]
    }));
    args
}

/// The `uv` arguments that run `entry_point` of `package` with
/// `entry_args`. Whether the worker project holds a `pyproject.toml` is
/// looked up on disk, so either form may come back.
pub fn python_uv_command_args(package: &str, entry_point: &str, entry_args: &[String]) -> (r: Vec<
    String,
>)
    ensures
        views(r@) == uv_args(package@, entry_point@, views(entry_args@), true) || views(r@)
            == uv_args(package@, entry_point@, views(entry_args@), false),
{
    let present = match worker_project_dir(package) {
        Some(dir) => path_exists(join(dir.as_str(), "pyproject.toml").as_str()),
        None => false,
    };
    uv_command_args_with(package, entry_point, entry_args, present)
}

/// `s` with every `-` turned into `_`.
pub fn replace_dashes(s: &str) -> (r: String)
    ensures
        r@ == dashes_to_underscores(s@),
{
    let n = s.unicode_len();
    let mut out = String::new();
    let mut i: usize = 0;
    while i < n
        invariant
            0 <= i <= n,
            n == s@.len(),
            out@ == dashes_to_underscores(s@).subrange(0, i as int),
        decreases n - i,
    {
        let c = s.get_char(i);
        let d = if c == '-' {
            '_'
        } else {
            c
        };
        push_char(&mut out, d);
        assert(dashes_to_underscores(s@).subrange(0, i + 1) =~= dashes_to_underscores(
            s@,
        ).subrange(0, i as int).push(d));
        i = i + 1;
    }
    assert(dashes_to_underscores(s@).subrange(0, n as int) =~= dashes_to_underscores(s@));
    out
}

/// The remediation text for a runtime that is not available.
pub fn install_instructions(runtime: &ProviderRuntime, uv_available: bool) -> (r: String)
    ensures
        r@ == instructions_text(runtime@, uv_available),
{
    match runtime {
        ProviderRuntime::SwiftNative { .. } => String::from_str(SWIFT_BUILD_HINT),
        ProviderRuntime::PythonUv { package, .. } => {
            let p = package.as_str();
            if !uv_available {
                let mut out = String::from_str("Install uv (");
                out.append(UV_INSTALL_URL);
                out.append(") and then run provider setup for `");
                out.append(p);
                out.append("`.");
                out
            } else {
                let mut probe = String::new();
                match worker_project_dir(p) {
                    Some(dir) => {
                        probe.append("uv --directory ");
                        probe.append(dir.as_str());
                        probe.append(" run ");
                        probe.append(replace_dashes(p).as_str());
                        probe.append(" --capabilities");
                    },
                    None => {
                        probe.append("uv run --package ");
                        probe.append(p);
                        probe.append(" ");
                        probe.append(p);
                        probe.append(" --capabilities");
                    },
                }
                assert(probe@ =~= probe_command_text(p@));
                let mut out = String::from_str("Install or fix the `");
                out.append(p);
                out.append("` runtime so `");
                out.append(probe.as_str());
                out.append("` succeeds.");
                out
            }
        },
        ProviderRuntime::CloudAPI { .. } => String::from_str(CLOUD_SETUP_HINT),
    }
}

/// The capabilities a remote API is taken to have without asking it.
pub fn cloud_capabilities() -> (r: Capabilities)
    ensures
        r.supported_models@.len() == 0,
        views(r.supported_formats@) == seq!["wav"@, "mp3"@],
        r.max_file_size is None,
        r.concurrent_files == Some(1u32),
        r.word_timestamps == Some(true),
        r.speaker_diarization == Some(false),
        r.language_detection == Some(true),
        r.translation == Some(false),
{
    let mut formats: Vec<String> = Vec::new();
    formats.push(String::from_str("wav"));
    formats.push(String::from_str("mp3"));
    assert(views(formats@) =~= seq!["wav"@, "mp3"@]);
    Capabilities {
        supported_models: Vec::new(),
        supported_formats: formats,
        max_file_size: None,
        concurrent_files: Some(1),
        word_timestamps: Some(true),
        speaker_diarization: Some(false),
        language_detection: Some(true),
        translation: Some(false),
    }
}

/// The providers this library offers, none of them probed yet.
pub fn known_providers(swift_binary_path: String, models_root: String) -> (r: Vec<Provider>)
    ensures
        r@.len() == 3,
        r@[0].id@ == COREML_PROVIDER_ID@,
        r@[0].name@ == "CoreML Local"@,
        r@[0].runtime@ == (RuntimeModel::SwiftNative {
            binary_path: swift_binary_path@,
            model_dir: models_root@,
        }),
        r@[1].id@ == WHISPER_OPENAI_PROVIDER_ID@,
        r@[1].name@ == "Whisper (OpenAI)"@,
        r@[1].runtime@ == (RuntimeModel::PythonUv {
            package: "whisper-batch"@,
            entry_point: "whisper_batch"@,
        }),
        r@[2].id@ == FASTER_WHISPER_PROVIDER_ID@,
        r@[2].name@ == "Faster Whisper"@,
        r@[2].runtime@ == (RuntimeModel::PythonUv {
            package: "faster-whisper-batch"@,
            entry_point: "faster_whisper_batch"@,
        }),
        forall|i: int|
            0 <= i < 3 ==> !(#[trigger] r@[i]).available && r@[i].capabilities is None
                && r@[i].install_instructions is None,
{
    let mut providers: Vec<Provider> = Vec::new();
    providers.push(
        Provider {
            id: String::from_str(COREML_PROVIDER_ID),
            name: String::from_str("CoreML Local"),
            runtime: ProviderRuntime::SwiftNative {
                binary_path: swift_binary_path,
                model_dir: models_root,
            },
            available: false,
            capabilities: None,
            install_instructions: None,
        },
    );
    providers.push(
        Provider {
            id: String::from_str(WHISPER_OPENAI_PROVIDER_ID),
            name: String::from_str("Whisper (OpenAI)"),
            runtime: ProviderRuntime::PythonUv {
                package: String::from_str("whisper-batch"),
                entry_point: String::from_str("whisper_batch"),
            },
            available: false,
            capabilities: None,
            install_instructions: None,
        },
    );
    providers.push(
        Provider {
            id: String::from_str(FASTER_WHISPER_PROVIDER_ID),
            name: String::from_str("Faster Whisper"),
            runtime: ProviderRuntime::PythonUv {
                package: String::from_str("faster-whisper-batch"),
                entry_point: String::from_str("faster_whisper_batch"),
            },
            available: false,
            capabilities: None,
            install_instructions: None,
        },
    );
    providers
}

} // verus!

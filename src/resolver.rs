//! Turning a (provider id, model) pair into one concrete runtime.
use crate::probe::{availability_evidence, check_available_with};
use crate::registry::{
    canonical_id, normalize_provider_id, ProviderRuntime, RuntimeModel, COREML_PROVIDER_ID,
    FASTER_WHISPER_PROVIDER_ID, WHISPER_OPENAI_PROVIDER_ID,
};
use crate::text::{
    all_ws, ascii_lowercase, contains_char, contains_double_dot, has_double_dot, is_ws,
    join, join_path, lemma_trimmed, lower, owned, str_eq, trim, trim_end_from, trim_start_from,
    trimmed,
};
use vstd::prelude::*;

verus! {

pub const COREML_V3_FOLDER: &'static str = "parakeet-tdt-0.6b-v3-coreml";

pub const COREML_V2_FOLDER: &'static str = "parakeet-tdt-0.6b-v2-coreml";

/// Where the models live when no root is configured.
pub const DEFAULT_MODELS_ROOT: &'static str = "~/Library/Application Support/FluidAudio/Models";

/// Where the native worker is looked for when no binary is configured.
pub const DEFAULT_SWIFT_BINARY: &'static str = "swift-worker/.build/release/coreml-batch";

/// How a runtime is resolved.
#[derive(Debug, Clone)]
pub struct ProviderSettings {
    pub swift_binary_override: Option<String>,
    pub models_root_override: Option<String>,
    pub check_availability: bool,
}

impl Default for ProviderSettings {
    fn default() -> (r: Self)
        ensures
            r.swift_binary_override is None,
            r.models_root_override is None,
            r.check_availability,
    {
        ProviderSettings {
            swift_binary_override: None,
            models_root_override: None,
            check_availability: true,
        }
    }
}

/// Why a runtime could not be resolved; each carries the value it is about.
#[derive(Debug, Clone, PartialEq, Eq)]
pub enum ProviderError {
    NotFound(String),
    Unavailable(String),
    InvalidModel(String),
}

/// An error with its string as a character sequence.
pub enum ErrorModel {
    NotFound(Seq<char>),
    Unavailable(Seq<char>),
    InvalidModel(Seq<char>),
}

impl View for ProviderError {
    type V = ErrorModel;

    open spec fn view(&self) -> ErrorModel {
        match self {
            ProviderError::NotFound(s) => ErrorModel::NotFound(s@),
            ProviderError::Unavailable(s) => ErrorModel::Unavailable(s@),
            ProviderError::InvalidModel(s) => ErrorModel::InvalidModel(s@),
        }
    }
}

impl ProviderError {
    /// The message shown for this error.
    pub fn message(&self) -> (r: String)
        ensures
            r@ == match self@ {
                ErrorModel::NotFound(s) => "Provider not found: "@ + s,
                ErrorModel::Unavailable(s) => "Provider is unavailable: "@ + s,
                ErrorModel::InvalidModel(s) => "Invalid model value: "@ + s,
            },
    {
        let (prefix, value) = match self {
            ProviderError::NotFound(s) => ("Provider not found: ", s),
            ProviderError::Unavailable(s) => ("Provider is unavailable: ", s),
            ProviderError::InvalidModel(s) => ("Invalid model value: ", s),
        };
        let mut out = String::from_str(prefix);
        out.append(value.as_str());
        out
    }
}

/// The view of a resolution result.
pub open spec fn outcome(r: Result<ProviderRuntime, ProviderError>) -> Result<RuntimeModel, ErrorModel> {
    match r {
        Ok(rt) => Ok(rt@),
        Err(e) => Err(e@),
    }
}

/// A model value that is safe to join onto the models root: once trimmed it
/// is not empty and holds no `..`, `/` or `\`.
pub open spec fn model_ok(model: Seq<char>) -> bool {
    let t = trimmed(model);
    t.len() > 0 && !has_double_dot(t) && !t.contains('/') && !t.contains('\\')
}

/// The model folder for the native runtime: the `v2` and `v3` aliases (in
/// any case, and the folder names themselves) map to the managed folders;
/// anything else is used as given.
pub open spec fn coreml_folder(model: Seq<char>) -> Seq<char> {
    let n = lower(trimmed(model));
    if n == "v3"@ || n == COREML_V3_FOLDER@ {
        COREML_V3_FOLDER@
    } else if n == "v2"@ || n == COREML_V2_FOLDER@ {
        COREML_V2_FOLDER@
    } else {
        model
    }
}

/// The native worker binary that `settings` selects.
pub open spec fn swift_binary_of(settings: ProviderSettings) -> Seq<char> {
    match settings.swift_binary_override {
        Some(p) => p@,
        None => DEFAULT_SWIFT_BINARY@,
    }
}

/// The models root that `settings` selects.
pub open spec fn models_root_of(settings: ProviderSettings) -> Seq<char> {
    match settings.models_root_override {
        Some(p) => p@,
        None => DEFAULT_MODELS_ROOT@,
    }
}

/// What resolving `id` and `model` under `settings` yields when
/// availability is not checked.
pub open spec fn resolution(id: Seq<char>, model: Seq<char>, settings: ProviderSettings) -> Result<
    RuntimeModel,
    ErrorModel,
> {
    let cid = canonical_id(id);
    if !model_ok(model) {
        Err(ErrorModel::InvalidModel(model))
    } else if cid == COREML_PROVIDER_ID@ {
        Ok(
            RuntimeModel::SwiftNative {
                binary_path: swift_binary_of(settings),
                model_dir: join_path(models_root_of(settings), coreml_folder(trimmed(model))),
            },
        )
    } else if cid == WHISPER_OPENAI_PROVIDER_ID@ {
        Ok(RuntimeModel::PythonUv { package: "whisper-batch"@, entry_point: "whisper_batch"@ })
    } else if cid == FASTER_WHISPER_PROVIDER_ID@ {
        Ok(
            RuntimeModel::PythonUv {
                package: "faster-whisper-batch"@,
                entry_point: "faster_whisper_batch"@,
            },
        )
    } else {
        Err(ErrorModel::NotFound(id))
    }
}

/// The trimmed model, or the error for a model that is not safe to use.
pub fn validate_model(model: &str) -> (r: Result<&str, ProviderError>)
    ensures
        model_ok(model@) ==> (r is Ok && r.unwrap()@ == trimmed(model@)),
        !model_ok(model@) ==> (r is Err && r->Err_0@ == ErrorModel::InvalidModel(model@)),
{
    let trimmed_model = trim(model);
    if trimmed_model.unicode_len() == 0 || contains_double_dot(trimmed_model) || contains_char(
        trimmed_model,
        '/',
    ) || contains_char(trimmed_model, '\\') {
        return Err(ProviderError::InvalidModel(owned(model)));
    }
    Ok(trimmed_model)
}

/// The directory of `model` under `models_root` for the native runtime.
pub fn resolve_coreml_model_dir(models_root: &str, model: &str) -> (r: String)
    ensures
        r@ == join_path(models_root@, coreml_folder(model@)),
{
    let normalized = ascii_lowercase(trim(model));
    let n = normalized.as_str();
    if str_eq(n, "v3") || str_eq(n, COREML_V3_FOLDER) {
        join(models_root, COREML_V3_FOLDER)
    } else if str_eq(n, "v2") || str_eq(n, COREML_V2_FOLDER) {
        join(models_root, COREML_V2_FOLDER)
    } else {
        join(models_root, model)
    }
}

/// The runtime for `id` and `model`, or why there is none, without asking
/// whether it is available.
pub fn resolve_runtime(id: &str, model: &str, settings: &ProviderSettings) -> (r: Result<
    ProviderRuntime,
    ProviderError,
>)
    ensures
        outcome(r) == resolution(id@, model@, *settings),
{
    let normalized_id = normalize_provider_id(id);
    let validated = match validate_model(model) {
        Ok(v) => v,
        Err(e) => {
            return Err(e);
        },
    };
    if str_eq(normalized_id, COREML_PROVIDER_ID) {
        let binary_path = match &settings.swift_binary_override {
            Some(p) => p.clone(),
            None => String::from_str(DEFAULT_SWIFT_BINARY),
        };
        let root = match &settings.models_root_override {
            Some(p) => p.clone(),
            None => String::from_str(DEFAULT_MODELS_ROOT),
        };
        let model_dir = resolve_coreml_model_dir(root.as_str(), validated);
        Ok(ProviderRuntime::SwiftNative { binary_path, model_dir })
    } else if str_eq(normalized_id, WHISPER_OPENAI_PROVIDER_ID) {
        Ok(
            ProviderRuntime::PythonUv {
                package: String::from_str("whisper-batch"),
                entry_point: String::from_str("whisper_batch"),
            },
        )
    } else if str_eq(normalized_id, FASTER_WHISPER_PROVIDER_ID) {
        Ok(
            ProviderRuntime::PythonUv {
                package: String::from_str("faster-whisper-batch"),
                entry_point: String::from_str("faster_whisper_batch"),
            },
        )
    } else {
        Err(ProviderError::NotFound(owned(id)))
    }
}

/// The outcome once availability has been checked: an unavailable runtime
/// is never handed out.
pub fn availability_verdict(id: &str, runtime: ProviderRuntime, available: bool) -> (r: Result<
    ProviderRuntime,
    ProviderError,
>)
    ensures
        available ==> outcome(r) == Ok::<RuntimeModel, ErrorModel>(runtime@),
        !available ==> outcome(r) == Err::<RuntimeModel, ErrorModel>(
            ErrorModel::Unavailable(id@),
        ),
{
    if available {
        Ok(runtime)
    } else {
        Err(ProviderError::Unavailable(owned(id)))
    }
}

/// Resolves `id` and `model` to a runtime. Where `settings` asks for it, the
/// runtime is probed through the runners (see `check_available_with`), and
/// one that is not available gives `Unavailable` with the id as given.
pub fn resolve_provider<F, G>(
    id: &str,
    model: &str,
    settings: &ProviderSettings,
    command_runner: &F,
    capability_runner: &G,
) -> (r: Result<ProviderRuntime, ProviderError>) where
    F: Fn(&str, &[String]) -> bool,
    G: Fn(&str, &[String], u64) -> Option<Vec<u8>>,

    requires
        forall|p: &str, a: &[String]| command_runner.requires((p, a)),
        forall|p: &str, a: &[String], t: u64| capability_runner.requires((p, a, t)),
    ensures
        !settings.check_availability ==> outcome(r) == resolution(id@, model@, *settings),
        settings.check_availability && resolution(id@, model@, *settings) is Err ==> outcome(r)
            == resolution(id@, model@, *settings),
        settings.check_availability && resolution(id@, model@, *settings) is Ok ==> (outcome(r)
            == resolution(id@, model@, *settings) || outcome(r) == Err::<RuntimeModel, ErrorModel>(
            ErrorModel::Unavailable(id@),
        )),
        settings.check_availability && r is Ok ==> availability_evidence(
            r->Ok_0@,
            *command_runner,
            *capability_runner,
        ),
{
    let runtime = match resolve_runtime(id, model, settings) {
        Ok(rt) => rt,
        Err(e) => {
            return Err(e);
        },
    };
    if !settings.check_availability {
        return Ok(runtime);
    }
    let available = check_available_with(&runtime, command_runner, capability_runner);
    availability_verdict(id, runtime, available)
}

/// Without availability checking, resolving is pure and deterministic: any
/// two results that `resolve_provider` may give for the same provider,
/// model and settings are the same.
pub proof fn resolution_determinism_law(
    id: Seq<char>,
    model: Seq<char>,
    settings: ProviderSettings,
    first: Result<ProviderRuntime, ProviderError>,
    second: Result<ProviderRuntime, ProviderError>,
)
    requires
        !settings.check_availability,
        outcome(first) == resolution(id, model, settings),
        outcome(second) == resolution(id, model, settings),
    ensures
        outcome(first) == outcome(second),
{
}

/// A model value is rejected exactly when it is empty or all whitespace, or
/// holds `..`, `/` or `\` anywhere.
pub proof fn model_rejection_law(model: Seq<char>)
    ensures
        !model_ok(model) <==> (all_ws(model) || has_double_dot(model) || model.contains('/')
            || model.contains('\\')),
{
    lemma_trimmed(model);
    let lo = trim_start_from(model, 0);
    let hi = trim_end_from(model, lo, model.len() as int);
    let t = trimmed(model);
    assert(t =~= model.subrange(lo, hi));
    // A character that is not whitespace lies inside the trimmed part.
    assert forall|i: int| 0 <= i < model.len() && !is_ws(#[trigger] model[i]) implies lo <= i
        < hi by {}
    if has_double_dot(model) {
        let i = choose|i: int| 0 <= i && i + 1 < model.len() && #[trigger] model[i] == '.' && model[i
            + 1] == '.';
        assert(!is_ws(model[i]) && !is_ws(model[i + 1]));
        assert(t[i - lo] == '.' && t[i - lo + 1] == '.');
    }
    if has_double_dot(t) {
        let i = choose|i: int| 0 <= i && i + 1 < t.len() && #[trigger] t[i] == '.' && t[i + 1] == '.';
        assert(model[i + lo] == '.' && model[i + lo + 1] == '.');
    }
    if model.contains('/') {
        let i = choose|i: int| 0 <= i < model.len() && model[i] == '/';
        assert(!is_ws(model[i]));
        assert(t[i - lo] == '/');
    }
    if t.contains('/') {
        let i = choose|i: int| 0 <= i < t.len() && t[i] == '/';
        assert(model[i + lo] == '/');
    }
    if model.contains('\\') {
        let i = choose|i: int| 0 <= i < model.len() && model[i] == '\\';
        assert(!is_ws(model[i]));
        assert(t[i - lo] == '\\');
    }
    if t.contains('\\') {
        let i = choose|i: int| 0 <= i < t.len() && t[i] == '\\';
        assert(model[i + lo] == '\\');
    }
}

} // verus!

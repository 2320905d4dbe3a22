//! Probing whether a runtime can be used, with the commands that do the
//! probing handed in by the caller.
use crate::capabilities::{capabilities_match, parse_capabilities_output, report_ok};
use crate::json::decoded_json_bytes;
use crate::registry::{
    cloud_capabilities, install_instructions, instructions_text, path_exists, path_is_file,
    python_uv_command_args, uv_args, views, Capabilities, Provider, ProviderRuntime, RuntimeModel,
    CAPABILITY_TIMEOUT_SECS,
};
use vstd::prelude::*;

verus! {

/// The report that the cloud runtime is taken to have.
pub open spec fn is_cloud_report(c: Capabilities) -> bool {
    &&& c.supported_models@.len() == 0
    &&& views(c.supported_formats@) == seq!["wav"@, "mp3"@]
    &&& c.max_file_size is None
    &&& c.concurrent_files == Some(1u32)
    &&& c.word_timestamps == Some(true)
    &&& c.speaker_diarization == Some(false)
    &&& c.language_detection == Some(true)
    &&& c.translation == Some(false)
}

/// `runner` answered the capability probe of `program` with a well-formed
/// report.
pub open spec fn probe_answered<G: Fn(&str, &[String], u64) -> Option<Vec<u8>>>(
    runner: G,
    program: Seq<char>,
    args: Seq<Seq<char>>,
) -> bool {
    exists|p: &str, a: &[String], o: Option<Vec<u8>>|
        #[trigger] runner.ensures((p, a, CAPABILITY_TIMEOUT_SECS), o) && p@ == program && views(a@)
            == args && o is Some && report_ok(o.unwrap()@)
}

/// `runner` answered `answer` for `program` run with arguments `args`.
pub open spec fn command_answered<F: Fn(&str, &[String]) -> bool>(
    runner: F,
    program: Seq<char>,
    args: Seq<Seq<char>>,
    answer: bool,
) -> bool {
    exists|p: &str, a: &[String]|
        #[trigger] runner.ensures((p, a), answer) && p@ == program && views(a@) == args
}

/// `runner` reported success for `program` run with arguments `args`.
pub open spec fn command_succeeded<F: Fn(&str, &[String]) -> bool>(
    runner: F,
    program: Seq<char>,
    args: Seq<Seq<char>>,
) -> bool {
    exists|p: &str, a: &[String]|
        #[trigger] runner.ensures((p, a), true) && p@ == program && views(a@) == args
}

/// `runner` answered the capability probe of `program` with a report that
/// states `c`.
pub open spec fn probe_reported<G: Fn(&str, &[String], u64) -> Option<Vec<u8>>>(
    runner: G,
    program: Seq<char>,
    args: Seq<Seq<char>>,
    c: Capabilities,
) -> bool {
    exists|p: &str, a: &[String], o: Option<Vec<u8>>|
        #[trigger] runner.ensures((p, a, CAPABILITY_TIMEOUT_SECS), o) && p@ == program && views(a@)
            == args && o is Some && report_ok(o.unwrap()@) && capabilities_match(
            c,
            decoded_json_bytes(o.unwrap()@).unwrap(),
        )
}

/// What the runners must have answered for a runtime to count as
/// available.
pub open spec fn availability_evidence<
    F: Fn(&str, &[String]) -> bool,
    G: Fn(&str, &[String], u64) -> Option<Vec<u8>>,
>(rt: RuntimeModel, command_runner: F, capability_runner: G) -> bool {
    match rt {
        RuntimeModel::CloudAPI { .. } => true,
        RuntimeModel::SwiftNative { binary_path, .. } => probe_answered(
            capability_runner,
            binary_path,
            seq!["--capabilities"@],
        ),
        RuntimeModel::PythonUv { package, entry_point } => command_succeeded(
            command_runner,
            "uv"@,
            uv_args(package, entry_point, seq!["--capabilities"@], true),
        ) || command_succeeded(
            command_runner,
            "uv"@,
            uv_args(package, entry_point, seq!["--capabilities"@], false),
        ),
    }
}

/// The arguments of a capability probe.
pub fn capability_flag() -> (r: Vec<String>)
    ensures
        views(r@) == seq!["--capabilities"@],
{
    let mut args: Vec<String> = Vec::new();
    args.push(String::from_str("--capabilities"));
    assert(views(args@) =~= seq!["--capabilities"@]);
    args
}

/// Whether the output of a capability probe is a well-formed report.
pub fn capable_from_output(output: Option<Vec<u8>>) -> (r: bool)
    ensures
        r == (output is Some && report_ok(output.unwrap()@)),
{
    match output {
        Some(o) => parse_capabilities_output(o.as_slice()).is_some(),
        None => false,
    }
}

/// Whether the binary at `path` is a regular file that answers the
/// capability probe with a well-formed report. `capability_runner` runs a
/// program with arguments and a timeout in seconds, and hands back its
/// standard output where it exits with success in time. The runner also
/// refuses a file without an executable permission bit, which the file
/// checks here cannot read; it yields no output for one.
pub fn binary_supports_capabilities_with<G>(path: &str, capability_runner: &G) -> (r: bool) where
    G: Fn(&str, &[String], u64) -> Option<Vec<u8>>,

    requires
        forall|p: &str, a: &[String], t: u64| capability_runner.requires((p, a, t)),
    ensures
        r ==> probe_answered(*capability_runner, path@, seq!["--capabilities"@]),
{
    if !path_exists(path) || !path_is_file(path) {
        return false;
    }
    let args = capability_flag();
    let slice = args.as_slice();
    let output = capability_runner(path, slice, CAPABILITY_TIMEOUT_SECS);
    let ghost answered = output;
    let capable = capable_from_output(output);
    proof {
        if capable {
            assert(capability_runner.ensures((path, slice, CAPABILITY_TIMEOUT_SECS), answered));
        }
    }
    capable
}

/// Whether a runtime can be used now. A remote API always can; a native
/// binary must answer the capability probe; a managed environment must have
/// `uv` run its probe with success (`command_runner` tells whether a program
/// with arguments exits with success).
pub fn check_available_with<F, G>(
    runtime: &ProviderRuntime,
    command_runner: &F,
    capability_runner: &G,
) -> (r: bool) where F: Fn(&str, &[String]) -> bool, G: Fn(&str, &[String], u64) -> Option<Vec<u8>>,

    requires
        forall|p: &str, a: &[String]| command_runner.requires((p, a)),
        forall|p: &str, a: &[String], t: u64| capability_runner.requires((p, a, t)),
    ensures
        runtime@ is CloudAPI ==> r,
        r ==> availability_evidence(runtime@, *command_runner, *capability_runner),
        runtime@ matches RuntimeModel::PythonUv { package, entry_point } ==> (command_answered(
            *command_runner,
            "uv"@,
            uv_args(package, entry_point, seq!["--capabilities"@], true),
            r,
        ) || command_answered(
            *command_runner,
            "uv"@,
            uv_args(package, entry_point, seq!["--capabilities"@], false),
            r,
        )),
{
    match runtime {
        ProviderRuntime::SwiftNative { binary_path, .. } => binary_supports_capabilities_with(
            binary_path.as_str(),
            capability_runner,
        ),
        ProviderRuntime::PythonUv { package, entry_point } => {
            let flag = capability_flag();
            let args = python_uv_command_args(package.as_str(), entry_point.as_str(), flag.as_slice());
            let slice = args.as_slice();
            let ok = command_runner("uv", slice);
            proof {
                assert(command_runner.ensures(("uv", slice), ok));
            }
            ok
        },
        ProviderRuntime::CloudAPI { .. } => true,
    }
}

/// The capabilities a runtime reports. A remote API is not asked; the others
/// are probed through `capability_runner`, and any answer is a parsed report.
pub fn query_capabilities_with<G>(runtime: &ProviderRuntime, capability_runner: &G) -> (r: Option<
    Capabilities,
>) where G: Fn(&str, &[String], u64) -> Option<Vec<u8>>,

    requires
        forall|p: &str, a: &[String], t: u64| capability_runner.requires((p, a, t)),
    ensures
        runtime@ is CloudAPI ==> (r is Some && is_cloud_report(r.unwrap())),
        runtime@ matches RuntimeModel::SwiftNative { binary_path, .. } ==> (r matches Some(c)
            ==> probe_reported(*capability_runner, binary_path, seq!["--capabilities"@], c)),
        runtime@ matches RuntimeModel::PythonUv { package, entry_point } ==> (r matches Some(c)
            ==> (probe_reported(
            *capability_runner,
            "uv"@,
            uv_args(package, entry_point, seq!["--capabilities"@], true),
            c,
        ) || probe_reported(
            *capability_runner,
            "uv"@,
            uv_args(package, entry_point, seq!["--capabilities"@], false),
            c,
        ))),
{
    let flag = capability_flag();
    let (program, args) = match runtime {
        ProviderRuntime::SwiftNative { binary_path, .. } => (binary_path.as_str(), capability_flag()),
        ProviderRuntime::PythonUv { package, entry_point } => (
            "uv",
            python_uv_command_args(package.as_str(), entry_point.as_str(), flag.as_slice()),
        ),
        ProviderRuntime::CloudAPI { .. } => {
            return Some(cloud_capabilities());
        },
    };
    let slice = args.as_slice();
    let output = capability_runner(program, slice, CAPABILITY_TIMEOUT_SECS);
    let ghost answered = output;
    match output {
        Some(o) => {
            let parsed = parse_capabilities_output(o.as_slice());
            proof {
                if parsed is Some {
                    assert(capability_runner.ensures((program, slice, CAPABILITY_TIMEOUT_SECS), answered));
                    assert(capabilities_match(parsed.unwrap(), decoded_json_bytes(o@).unwrap()));
                }
            }
            parsed
        },
        None => None,
    }
}

/// Records one probe's outcome on a provider: an available provider gets the
/// capabilities found and no remediation text; an unavailable one gets no
/// capabilities and the remediation text for its runtime.
pub fn apply_probe(
    provider: Provider,
    available: bool,
    capabilities: Option<Capabilities>,
    uv_available: bool,
) -> (r: Provider)
    ensures
        r.id == provider.id,
        r.name == provider.name,
        r.runtime == provider.runtime,
        r.available == available,
        available ==> r.capabilities == capabilities && r.install_instructions is None,
        !available ==> r.capabilities is None && r.install_instructions is Some
            && r.install_instructions.unwrap()@ == instructions_text(provider.runtime@, uv_available),
{
    if available {
        Provider {
            id: provider.id,
            name: provider.name,
            runtime: provider.runtime,
            available: true,
            capabilities,
            install_instructions: None,
        }
    } else {
        let text = install_instructions(&provider.runtime, uv_available);
        Provider {
            id: provider.id,
            name: provider.name,
            runtime: provider.runtime,
            available: false,
            capabilities: None,
            install_instructions: Some(text),
        }
    }
}

/// Probes each provider. A managed-environment provider is unavailable
/// without `uv`; the others are asked `availability_checker`, and an
/// available one is asked `capabilities_query` for its capabilities.
pub fn probe_with<F, G>(
    providers: Vec<Provider>,
    uv_available: bool,
    availability_checker: &F,
    capabilities_query: &G,
) -> (r: Vec<Provider>) where
    F: Fn(&ProviderRuntime) -> bool,
    G: Fn(&ProviderRuntime) -> Option<Capabilities>,

    requires
        forall|rt: &ProviderRuntime| availability_checker.requires((rt,)),
        forall|rt: &ProviderRuntime| capabilities_query.requires((rt,)),
    ensures
        r@.len() == providers@.len(),
        forall|i: int|
            0 <= i < r@.len() ==> {
                let p = #[trigger] r@[i];
                let q = providers@[i];
                &&& p.id == q.id
                &&& p.name == q.name
                &&& p.runtime == q.runtime
                &&& (q.runtime@ is PythonUv && !uv_available ==> !p.available)
                &&& (p.available ==> p.install_instructions is None)
                &&& (p.available ==> availability_checker.ensures((&q.runtime,), true))
                &&& (!(q.runtime@ is PythonUv && !uv_available) ==> availability_checker.ensures(
                    (&q.runtime,),
                    p.available,
                ))
                &&& (p.available ==> capabilities_query.ensures((&q.runtime,), p.capabilities))
                &&& (!p.available ==> p.capabilities is None && p.install_instructions is Some
                    && p.install_instructions.unwrap()@ == instructions_text(q.runtime@, uv_available))
            },
{
    let ghost original = providers@;
    let mut rest = providers;
    let mut out: Vec<Provider> = Vec::new();
    while rest.len() > 0
        invariant
            out@.len() + rest@.len() == original.len(),
            rest@ == original.subrange(out@.len() as int, original.len() as int),
            forall|rt: &ProviderRuntime| availability_checker.requires((rt,)),
            forall|rt: &ProviderRuntime| capabilities_query.requires((rt,)),
            forall|i: int|
                0 <= i < out@.len() ==> {
                    let p = #[trigger] out@[i];
                    let q = original[i];
                    &&& p.id == q.id
                    &&& p.name == q.name
                    &&& p.runtime == q.runtime
                    &&& (q.runtime@ is PythonUv && !uv_available ==> !p.available)
                    &&& (p.available ==> p.install_instructions is None)
                    &&& (p.available ==> availability_checker.ensures((&q.runtime,), true))
                    &&& (!(q.runtime@ is PythonUv && !uv_available) ==> availability_checker.ensures(
                        (&q.runtime,),
                        p.available,
                    ))
                &&& (!(q.runtime@ is PythonUv && !uv_available) ==> availability_checker.ensures(
                    (&q.runtime,),
                    p.available,
                ))
                    &&& (p.available ==> capabilities_query.ensures((&q.runtime,), p.capabilities))
                    &&& (!p.available ==> p.capabilities is None && p.install_instructions is Some
                        && p.install_instructions.unwrap()@ == instructions_text(q.runtime@, uv_available))
                },
        decreases rest@.len(),
    {
        let provider = rest.remove(0);
        let available = match &provider.runtime {
            ProviderRuntime::PythonUv { .. } if !uv_available => false,
            runtime => availability_checker(runtime),
        };
        let capabilities = if available {
            capabilities_query(&provider.runtime)
        } else {
            None
        };
        let probed = apply_probe(provider, available, capabilities, uv_available);
        out.push(probed);
    }
    out
}

/// The first candidate that answers the capability probe.
pub fn select_first_capable<G>(candidates: &[String], capability_runner: &G) -> (r: Option<String>) where
    G: Fn(&str, &[String], u64) -> Option<Vec<u8>>,

    requires
        forall|p: &str, a: &[String], t: u64| capability_runner.requires((p, a, t)),
    ensures
        r matches Some(c) ==> views(candidates@).contains(c@) && probe_answered(
            *capability_runner,
            c@,
            seq!["--capabilities"@],
        ),
{
    let n = candidates.len();
    let mut i: usize = 0;
    while i < n
        invariant
            0 <= i <= n,
            n == candidates@.len(),
            forall|p: &str, a: &[String], t: u64| capability_runner.requires((p, a, t)),
        decreases n - i,
    {
        if binary_supports_capabilities_with(candidates[i].as_str(), capability_runner) {
            assert(views(candidates@)[i as int] == candidates@[i as int]@);
            return Some(candidates[i].clone());
        }
        i = i + 1;
    }
    None
}

/// The first candidate that exists on disk.
pub fn select_first_existing(candidates: &[String]) -> (r: Option<String>)
    ensures
        r matches Some(c) ==> views(candidates@).contains(c@),
{
    let n = candidates.len();
    let mut i: usize = 0;
    while i < n
        invariant
            0 <= i <= n,
            n == candidates@.len(),
        decreases n - i,
    {
        if path_exists(candidates[i].as_str()) {
            assert(views(candidates@)[i as int] == candidates@[i as int]@);
            return Some(candidates[i].clone());
        }
        i = i + 1;
    }
    None
}

/// The first of the four choices that is present, else `fallback`.
pub open spec fn first_choice(
    local_capable: Option<String>,
    bundled_capable: Option<String>,
    local_existing: Option<String>,
    bundled_existing: Option<String>,
    fallback: String,
) -> Seq<char> {
    if local_capable is Some {
        local_capable.unwrap()@
    } else if bundled_capable is Some {
        bundled_capable.unwrap()@
    } else if local_existing is Some {
        local_existing.unwrap()@
    } else if bundled_existing is Some {
        bundled_existing.unwrap()@
    } else {
        fallback@
    }
}

/// The native worker binary, given what the probes and the file system
/// found: a capable local binary, else a capable bundled one, else an
/// existing local one, else an existing bundled one, else `fallback`.
pub fn pick_binary_path(
    local_capable: Option<String>,
    bundled_capable: Option<String>,
    local_existing: Option<String>,
    bundled_existing: Option<String>,
    fallback: String,
) -> (r: String)
    ensures
        r@ == first_choice(local_capable, bundled_capable, local_existing, bundled_existing, fallback),
{
    match local_capable {
        Some(path) => path,
        None => match bundled_capable {
            Some(path) => path,
            None => match local_existing {
                Some(path) => path,
                None => match bundled_existing {
                    Some(path) => path,
                    None => fallback,
                },
            },
        },
    }
}

/// Picks the native worker binary, always returning a path: the first
/// capable local candidate, else the first capable bundled one, else the
/// first local one that exists, else the first bundled one that exists,
/// else `fallback`.
pub fn resolve_binary_path<G>(
    local: &[String],
    bundled: &[String],
    capability_runner: &G,
    fallback: String,
) -> (r: String) where G: Fn(&str, &[String], u64) -> Option<Vec<u8>>,

    requires
        forall|p: &str, a: &[String], t: u64| capability_runner.requires((p, a, t)),
    ensures
        views(local@).contains(r@) || views(bundled@).contains(r@) || r@ == fallback@,
        exists|lc: Option<String>, bc: Option<String>, le: Option<String>, be: Option<String>|
            r@ == #[trigger] first_choice(lc, bc, le, be, fallback) && (lc matches Some(c)
                ==> views(local@).contains(c@) && probe_answered(
                *capability_runner,
                c@,
                seq!["--capabilities"@],
            )) && (bc matches Some(c) ==> views(bundled@).contains(c@) && probe_answered(
                *capability_runner,
                c@,
                seq!["--capabilities"@],
            )) && (le matches Some(c) ==> views(local@).contains(c@)) && (be matches Some(c)
                ==> views(bundled@).contains(c@)),
{
    let local_capable = select_first_capable(local, capability_runner);
    let bundled_capable = if local_capable.is_none() {
        select_first_capable(bundled, capability_runner)
    } else {
        None
    };
    let local_existing = if local_capable.is_none() && bundled_capable.is_none() {
        select_first_existing(local)
    } else {
        None
    };
    let bundled_existing = if local_capable.is_none() && bundled_capable.is_none()
        && local_existing.is_none() {
        select_first_existing(bundled)
    } else {
        None
    };
    let ghost (lc, bc, le, be) = (local_capable, bundled_capable, local_existing, bundled_existing);
    let r = pick_binary_path(local_capable, bundled_capable, local_existing, bundled_existing, fallback);
    assert(r@ == first_choice(lc, bc, le, be, fallback));
    r
}

} // verus!

use aura_worker::capabilities::parse_capabilities_output;
use aura_worker::probe::{
    apply_probe, check_available_with, pick_binary_path, probe_with, query_capabilities_with,
    resolve_binary_path,
    select_first_existing,
};
use aura_worker::registry::{
    cloud_capabilities, install_instructions, known_providers, normalize_provider_id,
    python_uv_command_args, uv_command_args_with, Capabilities, Provider, ProviderRuntime,
    COREML_PROVIDER_ID, LEGACY_COREML_PROVIDER_ID, WHISPER_OPENAI_PROVIDER_ID,
};

fn capable_output(_: &str, _: &[String], _: u64) -> Option<Vec<u8>> {
    Some(br#"{"supported_models":["v3"],"supported_formats":["wav"]}"#.to_vec())
}

#[test]
fn swift_runtime_unavailable_when_binary_missing() {
    let runtime = ProviderRuntime::SwiftNative {
        binary_path: "/tmp/definitely-not-real/swift-binary".to_string(),
        model_dir: "/tmp/models".to_string(),
    };

    assert!(!check_available_with(&runtime, &|_, _| true, &capable_output));
}

#[test]
fn python_uv_availability_depends_on_uv_runner_status() {
    let runtime = ProviderRuntime::PythonUv {
        package: "whisper-batch".to_string(),
        entry_point: "whisper_batch".to_string(),
    };

    let expected_args = python_uv_command_args(
        "whisper-batch",
        "whisper_batch",
        &[String::from("--capabilities")],
    );

    let available = check_available_with(
        &runtime,
        &move |program: &str, args: &[String]| program == "uv" && args == expected_args,
        &|_, _, _| None,
    );

    assert!(available);

    let unavailable = check_available_with(&runtime, &|_, _| false, &|_, _, _| None);
    assert!(!unavailable);
}

#[test]
fn parses_capabilities_json_payload() {
    let raw = br#"{
        "supported_models": ["v2", "v3"],
        "supported_formats": ["wav", "mp3"],
        "max_file_size": 524288000,
        "concurrent_files": 3,
        "word_timestamps": true,
        "speaker_diarization": false,
        "language_detection": true,
        "translation": false
    }"#;

    let capabilities =
        parse_capabilities_output(raw).expect("capabilities JSON should parse successfully");

    assert_eq!(capabilities.supported_models, vec!["v2", "v3"]);
    assert_eq!(capabilities.supported_formats, vec!["wav", "mp3"]);
    assert_eq!(capabilities.max_file_size, Some(524288000));
    assert_eq!(capabilities.concurrent_files, Some(3));
    assert_eq!(capabilities.word_timestamps, Some(true));
}

#[test]
fn capability_reports_accept_camel_case_and_reject_bad_values() {
    let camel = parse_capabilities_output(br#"{"supportedModels":["a"],"maxFileSize":null}"#)
        .expect("camel case names are accepted");
    assert_eq!(camel.supported_models, vec!["a"]);
    assert_eq!(camel.supported_formats, Vec::<String>::new());
    assert_eq!(camel.max_file_size, None);

    assert!(parse_capabilities_output(br#"{"supportedModels":["a"],"supported_models":["b"]}"#).is_none());
    assert!(parse_capabilities_output(br#"{"concurrent_files":4294967296}"#).is_none());
    assert!(parse_capabilities_output(br#"{"supported_formats":[1]}"#).is_none());
    assert!(parse_capabilities_output(br#"{"translation":"yes"}"#).is_none());
    assert!(parse_capabilities_output(br#"[1,2]"#).is_none());
    assert!(parse_capabilities_output(b"not json").is_none());
    assert_eq!(parse_capabilities_output(b"{}"), Some(Capabilities::default()));
}

#[test]
fn generates_install_instructions_for_missing_python_runtime() {
    let runtime = ProviderRuntime::PythonUv {
        package: "faster-whisper-batch".to_string(),
        entry_point: "faster_whisper_batch".to_string(),
    };

    let instructions = install_instructions(&runtime, false);
    assert!(instructions.contains("Install uv"));
}

#[test]
fn install_instructions_name_the_probe_command() {
    let runtime = ProviderRuntime::PythonUv {
        package: "faster-whisper-batch".to_string(),
        entry_point: "faster_whisper_batch".to_string(),
    };
    assert_eq!(
        install_instructions(&runtime, true),
        "Install or fix the `faster-whisper-batch` runtime so `uv --directory workers/faster-whisper-batch run faster_whisper_batch --capabilities` succeeds."
    );
    let other = ProviderRuntime::PythonUv {
        package: "custom".to_string(),
        entry_point: "custom_main".to_string(),
    };
    assert_eq!(
        install_instructions(&other, true),
        "Install or fix the `custom` runtime so `uv run --package custom custom --capabilities` succeeds."
    );
    assert_eq!(
        install_instructions(&other, false),
        "Install uv (https://docs.astral.sh/uv/getting-started/installation/) and then run provider setup for `custom`."
    );
}

#[test]
fn probe_with_marks_unavailable_and_sets_install_instructions() {
    let missing_swift = Provider {
        id: COREML_PROVIDER_ID.to_string(),
        name: "CoreML Local".to_string(),
        runtime: ProviderRuntime::SwiftNative {
            binary_path: "/tmp/missing/coreml-batch".to_string(),
            model_dir: "/tmp/models".to_string(),
        },
        available: true,
        capabilities: Some(Capabilities::default()),
        install_instructions: None,
    };

    let probed = probe_with(
        vec![missing_swift],
        true,
        &|runtime: &ProviderRuntime| check_available_with(runtime, &|_, _| true, &capable_output),
        &|_: &ProviderRuntime| Some(Capabilities::default()),
    );

    assert!(!probed[0].available);
    assert!(probed[0].capabilities.is_none());
    assert!(probed[0]
        .install_instructions
        .as_ref()
        .is_some_and(|instructions| instructions.contains("swift build")));
}

#[test]
fn probe_with_fetches_capabilities_for_available_provider() {
    let provider = Provider {
        id: COREML_PROVIDER_ID.to_string(),
        name: "CoreML Local".to_string(),
        runtime: ProviderRuntime::SwiftNative {
            binary_path: "/tmp/swift-runtime/coreml-batch".to_string(),
            model_dir: "/tmp/models".to_string(),
        },
        available: false,
        capabilities: None,
        install_instructions: Some("placeholder".to_string()),
    };

    let expected_caps = Capabilities {
        supported_models: vec!["v3".to_string()],
        supported_formats: vec!["wav".to_string()],
        max_file_size: None,
        concurrent_files: Some(1),
        word_timestamps: Some(true),
        speaker_diarization: Some(false),
        language_detection: Some(true),
        translation: Some(false),
    };

    let caps_for_query = expected_caps.clone();
    let probed = probe_with(vec![provider], true, &|_: &ProviderRuntime| true, &move |_: &ProviderRuntime| {
        Some(caps_for_query.clone())
    });

    assert!(probed[0].available);
    assert_eq!(probed[0].capabilities, Some(expected_caps));
    assert!(probed[0].install_instructions.is_none());
}

#[test]
fn managed_providers_are_unavailable_without_uv() {
    let providers = known_providers("/bin/coreml-batch".to_string(), "/models".to_string());
    let probed = probe_with(providers, false, &|_: &ProviderRuntime| true, &|_: &ProviderRuntime| None);
    assert_eq!(probed.len(), 3);
    assert!(probed[0].available);
    assert!(!probed[1].available);
    assert!(!probed[2].available);
    assert_eq!(
        probed[1].install_instructions.as_deref(),
        Some("Install uv (https://docs.astral.sh/uv/getting-started/installation/) and then run provider setup for `whisper-batch`.")
    );
}

#[test]
fn apply_probe_records_outcome() {
    let provider = known_providers("/bin/x".to_string(), "/m".to_string()).remove(0);
    let down = apply_probe(provider.clone(), false, Some(Capabilities::default()), true);
    assert!(!down.available);
    assert!(down.capabilities.is_none());
    assert_eq!(
        down.install_instructions.as_deref(),
        Some("Build the Swift worker with `cd swift-worker && swift build -c release`, then retry.")
    );
    let up = apply_probe(provider, true, Some(Capabilities::default()), true);
    assert!(up.available);
    assert_eq!(up.capabilities, Some(Capabilities::default()));
}

#[test]
fn cloud_runtime_is_available_and_reports_static_capabilities() {
    let runtime = ProviderRuntime::CloudAPI {
        base_url: "https://api.example.com".to_string(),
        requires_key: true,
    };
    assert!(check_available_with(&runtime, &|_, _| false, &|_, _, _| None));
    assert_eq!(query_capabilities_with(&runtime, &|_, _, _| None), Some(cloud_capabilities()));
    assert_eq!(cloud_capabilities().supported_formats, vec!["wav", "mp3"]);
}

#[test]
fn query_capabilities_parses_probe_output() {
    let runtime = ProviderRuntime::SwiftNative {
        binary_path: "/bin/coreml-batch".to_string(),
        model_dir: "/m".to_string(),
    };
    let caps = query_capabilities_with(&runtime, &capable_output).expect("report should parse");
    assert_eq!(caps.supported_models, vec!["v3"]);
    assert!(query_capabilities_with(&runtime, &|_, _, _| Some(b"oops".to_vec())).is_none());
}

#[test]
fn normalize_provider_id_maps_legacy_value() {
    assert_eq!(normalize_provider_id(LEGACY_COREML_PROVIDER_ID), COREML_PROVIDER_ID);
    assert_eq!(normalize_provider_id(WHISPER_OPENAI_PROVIDER_ID), WHISPER_OPENAI_PROVIDER_ID);
}

#[test]
fn uv_arguments_use_project_directory_when_present() {
    let extra = vec!["--capabilities".to_string()];
    assert_eq!(
        uv_command_args_with("whisper-batch", "whisper_batch", &extra, true),
        vec!["--directory", "workers/whisper-batch", "run", "whisper_batch", "--capabilities"]
    );
    assert_eq!(
        uv_command_args_with("whisper-batch", "whisper_batch", &extra, false),
        vec!["run", "--package", "whisper-batch", "whisper_batch", "--capabilities"]
    );
    assert_eq!(
        uv_command_args_with("other", "main", &[], true),
        vec!["run", "--package", "other", "main"]
    );
}

#[test]
fn binary_resolution_always_returns_a_path() {
    let local = vec!["/nowhere/a".to_string()];
    let bundled = vec!["/nowhere/b".to_string()];
    assert_eq!(
        resolve_binary_path(&local, &bundled, &capable_output, "fallback".to_string()),
        "fallback"
    );
    assert_eq!(select_first_existing(&["/nowhere".to_string(), "/".to_string()]), Some("/".to_string()));
}

#[test]
fn binary_choice_follows_capable_then_existing_then_default() {

    let s = |v: &str| Some(v.to_string());
    assert_eq!(pick_binary_path(s("lc"), s("bc"), s("le"), s("be"), "d".to_string()), "lc");
    assert_eq!(pick_binary_path(None, s("bc"), s("le"), s("be"), "d".to_string()), "bc");
    assert_eq!(pick_binary_path(None, None, s("le"), s("be"), "d".to_string()), "le");
    assert_eq!(pick_binary_path(None, None, None, s("be"), "d".to_string()), "be");
    assert_eq!(pick_binary_path(None, None, None, None, "d".to_string()), "d");
}

use aura_worker::registry::{
    ProviderRuntime, COREML_PROVIDER_ID, FASTER_WHISPER_PROVIDER_ID, WHISPER_OPENAI_PROVIDER_ID,
};
use aura_worker::resolver::{
    resolve_coreml_model_dir, resolve_provider, validate_model, ProviderError, ProviderSettings,
};

fn never_succeeds(_: &str, _: &[String]) -> bool {
    false
}

fn no_output(_: &str, _: &[String], _: u64) -> Option<Vec<u8>> {
    None
}

fn capable_output(_: &str, _: &[String], _: u64) -> Option<Vec<u8>> {
    Some(br#"{"supported_models":["v3"],"supported_formats":["wav"]}"#.to_vec())
}

#[test]
fn resolves_coreml_runtime_with_model_directory() {
    let settings = ProviderSettings {
        swift_binary_override: Some("/tmp/swift/coreml-batch".to_string()),
        models_root_override: Some("/tmp/models".to_string()),
        check_availability: false,
    };

    let runtime = resolve_provider(COREML_PROVIDER_ID, "v3", &settings, &never_succeeds, &no_output)
        .expect("provider should resolve");

    assert_eq!(
        runtime,
        ProviderRuntime::SwiftNative {
            binary_path: "/tmp/swift/coreml-batch".to_string(),
            model_dir: "/tmp/models/parakeet-tdt-0.6b-v3-coreml".to_string(),
        }
    );
}

#[test]
fn maps_v2_and_v3_model_aliases_to_managed_folder_names() {
    let settings = ProviderSettings {
        swift_binary_override: Some("/tmp/swift/coreml-batch".to_string()),
        models_root_override: Some("/tmp/models".to_string()),
        check_availability: false,
    };

    let v2_runtime = resolve_provider(COREML_PROVIDER_ID, "v2", &settings, &never_succeeds, &no_output)
        .expect("v2 alias should resolve");
    let v3_runtime = resolve_provider(COREML_PROVIDER_ID, "v3", &settings, &never_succeeds, &no_output)
        .expect("v3 alias should resolve");

    assert_eq!(
        v2_runtime,
        ProviderRuntime::SwiftNative {
            binary_path: "/tmp/swift/coreml-batch".to_string(),
            model_dir: "/tmp/models/parakeet-tdt-0.6b-v2-coreml".to_string(),
        }
    );
    assert_eq!(
        v3_runtime,
        ProviderRuntime::SwiftNative {
            binary_path: "/tmp/swift/coreml-batch".to_string(),
            model_dir: "/tmp/models/parakeet-tdt-0.6b-v3-coreml".to_string(),
        }
    );
}

#[test]
fn resolves_python_uv_runtimes_for_known_providers() {
    let settings = ProviderSettings {
        check_availability: false,
        ..ProviderSettings::default()
    };

    let whisper = resolve_provider(WHISPER_OPENAI_PROVIDER_ID, "base", &settings, &never_succeeds, &no_output)
        .expect("whisper provider should resolve");
    let faster = resolve_provider(FASTER_WHISPER_PROVIDER_ID, "large-v3", &settings, &never_succeeds, &no_output)
        .expect("faster whisper provider should resolve");

    assert_eq!(
        whisper,
        ProviderRuntime::PythonUv {
            package: "whisper-batch".to_string(),
            entry_point: "whisper_batch".to_string(),
        }
    );
    assert_eq!(
        faster,
        ProviderRuntime::PythonUv {
            package: "faster-whisper-batch".to_string(),
            entry_point: "faster_whisper_batch".to_string(),
        }
    );
}

#[test]
fn resolves_legacy_coreml_provider_id_for_backward_compatibility() {
    let settings = ProviderSettings {
        swift_binary_override: Some("/tmp/swift/coreml-batch".to_string()),
        models_root_override: Some("/tmp/models".to_string()),
        check_availability: false,
    };

    let runtime = resolve_provider("parakeet-coreml", "v3", &settings, &never_succeeds, &no_output)
        .expect("legacy coreml provider id should resolve");

    assert_eq!(
        runtime,
        ProviderRuntime::SwiftNative {
            binary_path: "/tmp/swift/coreml-batch".to_string(),
            model_dir: "/tmp/models/parakeet-tdt-0.6b-v3-coreml".to_string(),
        }
    );
}

#[test]
fn returns_not_found_for_unknown_provider_id() {
    let settings = ProviderSettings {
        check_availability: false,
        ..ProviderSettings::default()
    };

    let error = resolve_provider("unknown-provider", "v3", &settings, &never_succeeds, &no_output)
        .expect_err("unknown providers should fail");

    assert_eq!(error, ProviderError::NotFound("unknown-provider".to_string()));
}

#[test]
fn rejects_invalid_model_values() {
    let settings = ProviderSettings {
        check_availability: false,
        ..ProviderSettings::default()
    };

    let error = resolve_provider(COREML_PROVIDER_ID, "../escape", &settings, &never_succeeds, &no_output)
        .expect_err("path traversal model should be rejected");

    assert_eq!(error, ProviderError::InvalidModel("../escape".to_string()));
}

#[test]
fn returns_unavailable_when_runtime_is_not_available() {
    let settings = ProviderSettings {
        swift_binary_override: Some("/tmp/not-present/coreml-batch".to_string()),
        models_root_override: Some("/tmp/models".to_string()),
        check_availability: true,
    };

    // The probe would answer, but there is no binary at the configured path.
    let error = resolve_provider(COREML_PROVIDER_ID, "v3", &settings, &never_succeeds, &capable_output)
        .expect_err("missing runtime should be marked unavailable");

    assert_eq!(error, ProviderError::Unavailable(COREML_PROVIDER_ID.to_string()));
}

#[test]
fn validation_rejects_empty_blank_and_path_like_models() {
    for bad in ["", "   ", "\t\n", "a/b", "a\\b", "..", "x..y", " ../ "] {
        assert_eq!(
            validate_model(bad),
            Err(ProviderError::InvalidModel(bad.to_string())),
            "{bad:?} should be rejected"
        );
    }
}

#[test]
fn validation_trims_accepted_models() {
    assert_eq!(validate_model("  v3 \n"), Ok("v3"));
    assert_eq!(validate_model("large-v3"), Ok("large-v3"));
    assert_eq!(validate_model("a.b"), Ok("a.b"));
}

#[test]
fn managed_providers_ignore_the_model_name() {
    let settings = ProviderSettings {
        check_availability: false,
        ..ProviderSettings::default()
    };
    let a = resolve_provider(WHISPER_OPENAI_PROVIDER_ID, "tiny", &settings, &never_succeeds, &no_output);
    let b = resolve_provider(WHISPER_OPENAI_PROVIDER_ID, "large", &settings, &never_succeeds, &no_output);
    assert_eq!(a, b);
}

#[test]
fn resolution_without_checking_is_deterministic() {
    let settings = ProviderSettings {
        swift_binary_override: Some("/opt/bin/coreml-batch".to_string()),
        models_root_override: Some("/models".to_string()),
        check_availability: false,
    };
    let first = resolve_provider(COREML_PROVIDER_ID, "V2", &settings, &never_succeeds, &no_output);
    let second = resolve_provider(COREML_PROVIDER_ID, "V2", &settings, &never_succeeds, &no_output);
    assert_eq!(first, second);
    assert_eq!(
        first,
        Ok(ProviderRuntime::SwiftNative {
            binary_path: "/opt/bin/coreml-batch".to_string(),
            model_dir: "/models/parakeet-tdt-0.6b-v2-coreml".to_string(),
        })
    );
}

#[test]
fn unknown_models_are_joined_as_given() {
    assert_eq!(resolve_coreml_model_dir("/models/", "custom"), "/models/custom");
    assert_eq!(resolve_coreml_model_dir("/models", "custom"), "/models/custom");
    assert_eq!(
        resolve_coreml_model_dir("/models", "PARAKEET-TDT-0.6B-V3-COREML"),
        "/models/parakeet-tdt-0.6b-v3-coreml"
    );
}

#[test]
fn defaults_are_used_without_overrides() {
    let settings = ProviderSettings {
        check_availability: false,
        ..ProviderSettings::default()
    };
    let runtime = resolve_provider(COREML_PROVIDER_ID, "v3", &settings, &never_succeeds, &no_output)
        .expect("provider should resolve");
    assert_eq!(
        runtime,
        ProviderRuntime::SwiftNative {
            binary_path: "swift-worker/.build/release/coreml-batch".to_string(),
            model_dir: "~/Library/Application Support/FluidAudio/Models/parakeet-tdt-0.6b-v3-coreml"
                .to_string(),
        }
    );
}

#[test]
fn invalid_model_is_reported_before_unknown_provider() {
    let settings = ProviderSettings {
        check_availability: false,
        ..ProviderSettings::default()
    };
    let error = resolve_provider("nope", "", &settings, &never_succeeds, &no_output).unwrap_err();
    assert_eq!(error, ProviderError::InvalidModel(String::new()));
    assert_eq!(error.message(), "Invalid model value: ");
    assert_eq!(
        ProviderError::NotFound("x".to_string()).message(),
        "Provider not found: x"
    );
    assert_eq!(
        ProviderError::Unavailable("y".to_string()).message(),
        "Provider is unavailable: y"
    );
}

use aura_worker::json::{decode_json, get, Json};
use aura_worker::protocol::{
    command_args_for_runtime, completion_notification_title, failure_notification_detail,
    infer_model_version_from_model_dir, is_completed_exit,
    launch_command_for_runtime, notification_for, parse_fatal_error, parse_file_outcome,
    parse_summary_event, parse_worker_line, session_status_for_exit, LineDisposition, SessionSummary,
    NotificationKind, NotificationPreferences, StreamState,
};
use aura_worker::registry::{python_uv_command_args, ProviderRuntime};

fn value(text: &str) -> Json {
    decode_json(text).expect("fixture should be JSON")
}

#[test]
fn maps_swift_runtime_to_binary_command() {
    let runtime = ProviderRuntime::SwiftNative {
        binary_path: "/tmp/coreml-batch".to_string(),
        model_dir: "/tmp/models/v3".to_string(),
    };

    let command = launch_command_for_runtime(&runtime).expect("swift runtime should map");

    assert_eq!(command.program, "/tmp/coreml-batch");
    assert!(command.args.is_empty());
}

#[test]
fn maps_python_runtime_to_uv_command() {
    let runtime = ProviderRuntime::PythonUv {
        package: "whisper-batch".to_string(),
        entry_point: "whisper_batch".to_string(),
    };

    let command = launch_command_for_runtime(&runtime).expect("python runtime should map");

    assert_eq!(command.program, "uv");
    assert_eq!(command.args, python_uv_command_args("whisper-batch", "whisper_batch", &[]));
}

#[test]
fn cloud_runtime_does_not_map_to_local_command() {
    let runtime = ProviderRuntime::CloudAPI {
        base_url: "https://api.example.com".to_string(),
        requires_key: true,
    };

    assert!(launch_command_for_runtime(&runtime).is_none());
}

#[test]
fn appends_manifest_flags_for_swift_runtime() {
    let runtime = ProviderRuntime::SwiftNative {
        binary_path: "/tmp/coreml-batch".to_string(),
        model_dir: "/tmp/models/v2".to_string(),
    };

    let launch = command_args_for_runtime(&runtime, "/tmp/sessions/session-a.json", "/tmp/out")
        .expect("swift runtime should produce args");

    assert_eq!(launch.program, "/tmp/coreml-batch");
    assert!(launch.args.contains(&"--manifest".to_string()));
    assert!(launch.args.contains(&"/tmp/sessions/session-a.json".to_string()));
    assert!(launch.args.contains(&"--output-dir".to_string()));
    assert!(launch.args.contains(&"/tmp/out".to_string()));
    assert!(launch.args.contains(&"--model-version".to_string()));
    assert!(launch.args.contains(&"v2".to_string()));
}

#[test]
fn full_swift_command_line_is_in_order() {
    let runtime = ProviderRuntime::SwiftNative {
        binary_path: "/bin/w".to_string(),
        model_dir: "/m/Parakeet-V3".to_string(),
    };
    let launch = command_args_for_runtime(&runtime, "/s/a.json", "/o").unwrap();
    assert_eq!(
        launch.args,
        vec!["--model-dir", "/m/Parakeet-V3", "--model-version", "v3", "--manifest", "/s/a.json", "--output-dir", "/o"]
    );
    let cloud = ProviderRuntime::CloudAPI { base_url: "u".to_string(), requires_key: false };
    assert_eq!(
        command_args_for_runtime(&cloud, "/s/a.json", "/o"),
        Err("Cloud API providers do not support local worker launching".to_string())
    );
    assert_eq!(infer_model_version_from_model_dir("/x/parakeet-tdt-0.6b-V2-coreml"), "v2");
    assert_eq!(infer_model_version_from_model_dir("/x/other"), "v3");
}

#[test]
fn parses_worker_ndjson_and_rejects_malformed_lines() {
    let parsed = parse_worker_line(r#"{"event":"file_done","file":"a.wav"}"#)
        .expect("valid json should parse");

    let event = parsed.as_ref().and_then(|value| get(value, "event"));
    assert!(matches!(event, Some(Json::Text(name)) if name == "file_done"));

    assert!(parse_worker_line("not-json").is_err(), "invalid json should fail");
}

#[test]
fn ignores_blank_worker_lines() {
    let parsed = parse_worker_line("   ").expect("blank lines should not fail");
    assert!(parsed.is_none());
}

#[test]
fn parses_summary_event_for_notifications() {
    let value = value(r#"{"event":"summary","processed":7,"failed":2,"duration_seconds":91.2}"#);

    let summary = parse_summary_event(&value).expect("summary event should parse");
    assert_eq!(summary.processed, 7);
    assert_eq!(summary.failed, 2);
    assert_eq!(summary.duration_seconds, "91.2");
    assert_eq!(summary.total, 0);
}

#[test]
fn parses_fatal_error_event_for_notifications() {
    let value = value(r#"{"event":"fatal_error","error":"model unavailable"}"#);

    assert_eq!(parse_fatal_error(&value), Some("model unavailable".to_string()));
    assert_eq!(parse_fatal_error(&self::value(r#"{"event":"summary","error":"x"}"#)), None);
}

#[test]
fn parses_skipped_outcome_with_existing_output_paths() {
    let value = value(
        r#"{"event":"file_skipped","file":"/audio/input.wav","reason":"outputs_exist",
            "output":{"txt":"/tmp/out/input.wav.txt","json":"/tmp/out/input.wav.json"}}"#,
    );

    let (path, outcome) = parse_file_outcome(&value).expect("skipped outcome should parse");
    assert_eq!(path, "/audio/input.wav");
    assert_eq!(outcome.status, "skipped");
    assert_eq!(outcome.transcript_path.as_deref(), Some("/tmp/out/input.wav.txt"));
    assert_eq!(outcome.json_path.as_deref(), Some("/tmp/out/input.wav.json"));
    assert_eq!(outcome.error.as_deref(), Some("outputs_exist"));
}

#[test]
fn parses_done_and_failed_outcomes() {
    let (path, done) = parse_file_outcome(&value(
        r#"{"event":"file_done","file":"/a.wav","output":{"txt":"/o/a.txt","json":"/o/a.json"}}"#,
    ))
    .unwrap();
    assert_eq!(path, "/a.wav");
    assert_eq!(done.status, "success");
    assert_eq!(done.transcript_path.as_deref(), Some("/o/a.txt"));
    assert_eq!(done.error, None);

    let (_, failed) =
        parse_file_outcome(&value(r#"{"event":"file_failed","file":"/b.wav","error":"decode failed"}"#)).unwrap();
    assert_eq!(failed.status, "failed");
    assert_eq!(failed.error.as_deref(), Some("decode failed"));
    assert_eq!(failed.transcript_path, None);

    assert!(parse_file_outcome(&value(r#"{"event":"file_done"}"#)).is_none());
    assert!(parse_file_outcome(&value(r#"{"event":"progress","file":"/b.wav"}"#)).is_none());
}

#[test]
fn stream_state_keeps_latest_values_in_order() {
    let mut state = StreamState::new();
    assert!(matches!(state.consume_line(""), LineDisposition::Ignored));
    match state.consume_line("garbage line") {
        LineDisposition::Raw(text) => assert_eq!(text, "garbage line"),
        other => panic!("expected a raw line, got {other:?}"),
    }
    assert!(matches!(
        state.consume_line(r#"{"event":"file_failed","file":"/a.wav","error":"first"}"#),
        LineDisposition::Forward(_)
    ));
    state.consume_line(r#"{"event":"file_done","file":"/a.wav","output":{"txt":"/o/a.txt"}}"#);
    state.consume_line(r#"{"event":"summary","total":1,"processed":1}"#);
    state.consume_line(r#"{"event":"summary","total":2,"processed":2}"#);
    state.consume_line(r#"{"event":"fatal_error","error":"boom"}"#);

    let latest = state.outcomes.get("/a.wav").expect("outcome kept");
    assert_eq!(latest.status, "success");
    assert_eq!(state.latest_summary.as_ref().map(|s| s.total), Some(2));
    assert_eq!(state.fatal_error.as_deref(), Some("boom"));
}

#[test]
fn exit_codes_classify_the_session() {
    assert!(is_completed_exit(0));
    assert!(is_completed_exit(2));
    assert!(!is_completed_exit(1));
    assert_eq!(session_status_for_exit(0), "completed");
    assert_eq!(session_status_for_exit(2), "completed");
    assert_eq!(session_status_for_exit(-1), "failed");
}

#[test]
fn notifications_need_preference_and_permission() {
    let all = NotificationPreferences::default();
    assert_eq!(notification_for(all, true, 0), NotificationKind::Completion);
    assert_eq!(notification_for(all, true, 3), NotificationKind::Failure);
    assert_eq!(notification_for(all, false, 0), NotificationKind::Nothing);
    let quiet = NotificationPreferences { notifications_enabled: false, ..all };
    assert_eq!(notification_for(quiet, true, 1), NotificationKind::Nothing);
    let no_complete = NotificationPreferences { notify_on_complete: false, ..all };
    assert_eq!(notification_for(no_complete, true, 2), NotificationKind::Nothing);
}

#[test]
fn notification_texts_name_the_failure() {
    assert_eq!(failure_notification_detail(1, Some("model unavailable")), "model unavailable");
    assert_eq!(failure_notification_detail(3, Some("  ")), "Worker exited with code 3.");
    assert_eq!(failure_notification_detail(-1, None), "Worker exited with code -1.");
    assert_eq!(failure_notification_detail(i32::MIN, None), "Worker exited with code -2147483648.");
    let summary = SessionSummary {
        total: 2,
        processed: 1,
        skipped: 0,
        failed: 1,
        duration_seconds: "4".to_string(),
    };
    assert_eq!(completion_notification_title(Some(&summary)), "Transcription Complete (with failures)");
    assert_eq!(completion_notification_title(None), "Transcription Complete");
}

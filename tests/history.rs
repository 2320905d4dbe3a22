use aura_worker::history::{
    build_session_record, normalize_file_name, parse_created_at_unix, summarize_from_files, to_i32,
    SessionFileRecord, SessionSummarySnapshot,
};
use aura_worker::manifest::{FileEntry, SessionManifest, TranscriptionSettings};
use aura_worker::outcome::{FileOutcome, OutcomeMap};
use aura_worker::protocol::StreamState;

fn fixture_settings() -> TranscriptionSettings {
    TranscriptionSettings {
        output_format: "both".to_string(),
        recursive: true,
        overwrite: false,
        max_retries: 1,
        extensions: vec!["wav".to_string()],
        ffmpeg_fallback: true,
        dry_run: false,
        notifications_enabled: true,
        notify_on_complete: true,
        notify_on_error: true,
    }
}

fn fixture_manifest(session_id: &str) -> SessionManifest {
    SessionManifest {
        session_id: session_id.to_string(),
        created_at: "2026-02-12T00:00:00.000Z".to_string(),
        provider: "coreml-local".to_string(),
        model: "v3".to_string(),
        output_dir: "/tmp/batch-transcripts".to_string(),
        settings: fixture_settings(),
        files: vec![
            FileEntry {
                id: "file-a".to_string(),
                path: "/audio/a.wav".to_string(),
                status: "queued".to_string(),
            },
            FileEntry {
                id: "file-b".to_string(),
                path: "/audio/b.wav".to_string(),
                status: "queued".to_string(),
            },
        ],
    }
}

#[test]
fn archives_sessions_and_loads_history_records() {
    let mut outcomes = OutcomeMap::new();
    outcomes.insert(
        "/audio/a.wav".to_string(),
        FileOutcome {
            status: "success".to_string(),
            transcript_path: Some("/tmp/batch-transcripts/a.txt".to_string()),
            json_path: Some("/tmp/batch-transcripts/a.json".to_string()),
            error: None,
        },
    );
    outcomes.insert(
        "/audio/b.wav".to_string(),
        FileOutcome {
            status: "failed".to_string(),
            transcript_path: None,
            json_path: None,
            error: Some("decode failed".to_string()),
        },
    );

    let session = build_session_record(
        "/tmp/sessions/session-a.json",
        fixture_manifest("session-a"),
        "session-a",
        Some(SessionSummarySnapshot {
            total: 2,
            processed: 1,
            skipped: 0,
            failed: 1,
            duration_seconds: "12.4".to_string(),
        }),
        1,
        "failed",
        &outcomes,
    );

    assert_eq!(session.id, "session-a");
    assert_eq!(session.provider, "coreml-local");
    assert_eq!(session.model, "v3");
    assert_eq!(session.total, 2);
    assert_eq!(session.processed, 1);
    assert_eq!(session.failed, 1);
    assert_eq!(session.status, "failed");
    assert_eq!(session.created_at, 1770854400);
    assert_eq!(session.files.len(), 2);
    assert_eq!(session.files[0].status, "success", "files are ordered by filename");
    assert_eq!(session.files[0].name, "a.wav");
    assert_eq!(
        session.files[1].error.as_deref(),
        Some("decode failed"),
        "failed item keeps error details"
    );
}

#[test]
fn cancelled_sessions_default_file_status_to_cancelled() {
    let session = build_session_record(
        "/tmp/sessions/session-cancel.json",
        fixture_manifest("session-cancel"),
        "session-cancel",
        None,
        -1,
        "cancelled",
        &OutcomeMap::new(),
    );

    assert_eq!(session.status, "cancelled");
    assert_eq!(session.files.len(), 2);
    assert!(session.files.iter().all(|file| file.status == "cancelled"));
    assert_eq!(session.total, 2);
    assert_eq!(session.processed, 0);
}

#[test]
fn failed_sessions_default_file_status_to_failed() {
    let session = build_session_record(
        "/tmp/sessions/session-failed.json",
        fixture_manifest("session-failed"),
        "session-failed",
        None,
        1,
        "failed",
        &OutcomeMap::new(),
    );

    assert_eq!(session.status, "failed");
    assert_eq!(session.failed, 2);
    assert!(session.files.iter().all(|file| file.status == "failed"));
}

#[test]
fn completed_sessions_keep_manifest_status_of_unreported_files() {
    let mut outcomes = OutcomeMap::new();
    outcomes.insert(
        "/audio/a.wav".to_string(),
        FileOutcome {
            status: "skipped".to_string(),
            transcript_path: None,
            json_path: None,
            error: Some("outputs_exist".to_string()),
        },
    );
    let session = build_session_record("/m.json", fixture_manifest("s"), "s", None, 0, "completed", &outcomes);
    assert_eq!(session.files[0].status, "skipped");
    assert_eq!(session.files[1].status, "queued");
    assert_eq!(session.skipped, 1);
    assert_eq!(session.total, 2);
    assert_eq!(session.duration_seconds, "0");
}

#[test]
fn archiving_twice_keeps_one_row_per_manifest_file() {
    let mut outcomes = OutcomeMap::new();
    let failed = FileOutcome {
        status: "failed".to_string(),
        transcript_path: None,
        json_path: None,
        error: Some("x".to_string()),
    };
    outcomes.insert("/audio/a.wav".to_string(), failed.clone());
    outcomes.insert("/audio/a.wav".to_string(), failed);
    let first = build_session_record("/m.json", fixture_manifest("s"), "s", None, 1, "failed", &outcomes);
    let second = build_session_record("/m.json", fixture_manifest("s"), "s", None, 1, "failed", &outcomes);
    assert_eq!(first.files.len(), 2);
    assert_eq!(first, second);
}

#[test]
fn counts_rows_by_status() {
    let row = |status: &str| SessionFileRecord {
        id: "i".to_string(),
        path: "/p".to_string(),
        name: "p".to_string(),
        status: status.to_string(),
        transcript_path: None,
        json_path: None,
        error: None,
    };
    let files = vec![row("success"), row("failed"), row("success"), row("skipped"), row("queued")];
    let summary = summarize_from_files(&files);
    assert_eq!(summary.total, 5);
    assert_eq!(summary.processed, 2);
    assert_eq!(summary.failed, 1);
    assert_eq!(summary.skipped, 1);
}

#[test]
fn stored_counts_saturate() {
    assert_eq!(to_i32(7), 7);
    assert_eq!(to_i32(u64::MAX), i32::MAX);
    assert_eq!(to_i32(2_147_483_648), i32::MAX);
}

#[test]
fn file_names_and_times_come_from_the_outside_parsers() {
    assert_eq!(normalize_file_name("/audio/deep/b.wav"), "b.wav");
    assert_eq!(normalize_file_name("/"), "");
    assert_eq!(parse_created_at_unix("2026-02-12T00:00:00.000Z"), 1770854400);
    assert_eq!(parse_created_at_unix("1970-01-01T00:01:00+00:00"), 60);
}

#[test]
fn scenario_done_and_failed_files_are_recorded_from_worker_lines() {
    let mut state = StreamState::new();
    for line in [
        r#"{"event":"file_done","file":"/audio/a.wav","output":{"txt":"/tmp/out/a.txt","json":"/tmp/out/a.json"}}"#,
        r#"{"event":"file_failed","file":"/audio/b.wav","error":"decode failed"}"#,
        r#"{"event":"summary","total":2,"processed":1,"skipped":0,"failed":1,"duration_seconds":3.5}"#,
    ] {
        state.consume_line(line);
    }
    let summary = state.latest_summary.clone().map(|s| SessionSummarySnapshot {
        total: s.total,
        processed: s.processed,
        skipped: s.skipped,
        failed: s.failed,
        duration_seconds: s.duration_seconds,
    });
    let record = build_session_record("/m.json", fixture_manifest("session-a"), "session-a", summary, 1, "failed", &state.outcomes);
    assert_eq!((record.total, record.processed, record.failed), (2, 1, 1));
    assert_eq!(record.duration_seconds, "3.5");
    assert_eq!(record.files[0].status, "success");
    assert_eq!(record.files[0].transcript_path.as_deref(), Some("/tmp/out/a.txt"));
    assert_eq!(record.files[0].json_path.as_deref(), Some("/tmp/out/a.json"));
    assert_eq!(record.files[1].status, "failed");
    assert_eq!(record.files[1].error.as_deref(), Some("decode failed"));
}

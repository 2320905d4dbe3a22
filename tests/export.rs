use aura_worker::export::{
    build_metadata, collect_export_sources, dedupe_path, export_name_for, normalize_export_name,
    sanitize_parent_path, split_file_name, zero_padded_decimal, ExportFormat, ExportItem, ExportNaming,
    ExportOptions, PreparedExportFile,
};

#[test]
fn export_options_default_to_zip_with_metadata() {
    let options = ExportOptions::default();
    assert_eq!(options.format, ExportFormat::Zip);
    assert_eq!(options.naming, ExportNaming::Preserve);
    assert!(options.include_metadata);
    assert!(!options.preserve_structure);
}

#[test]
fn export_names_follow_the_naming_choice() {
    assert_eq!(export_name_for("/out/a.txt", ExportNaming::Preserve, 1, "20260212T000000Z"), Ok("a.txt".to_string()));
    assert_eq!(
        export_name_for("/out/a.txt", ExportNaming::Timestamp, 1, "20260212T000000Z"),
        Ok("20260212T000000Z_a.txt".to_string())
    );
    assert_eq!(export_name_for("/out/b.txt", ExportNaming::Numbered, 2, ""), Ok("0002_b.txt".to_string()));
    assert_eq!(export_name_for("/out/b.txt", ExportNaming::Numbered, 12345, ""), Ok("12345_b.txt".to_string()));
    assert_eq!(
        export_name_for("/", ExportNaming::Preserve, 1, ""),
        Err("Invalid transcript file name: /".to_string())
    );
}

#[test]
fn export_paths_use_forward_slashes_and_split_extensions() {
    assert_eq!(normalize_export_name("a\\b\\c.txt"), "a/b/c.txt");
    assert_eq!(split_file_name("/x/report.final.txt"), ("report.final".to_string(), "txt".to_string()));
    assert_eq!(split_file_name("/x/.hidden"), (".hidden".to_string(), String::new()));
    assert_eq!(split_file_name("/x/trailing."), ("trailing.".to_string(), String::new()));
    assert_eq!(zero_padded_decimal(7, 4), "0007");
    assert_eq!(zero_padded_decimal(0, 1), "0");
    assert_eq!(zero_padded_decimal(u64::MAX, 4), "18446744073709551615");
}

fn item(id: &str, status: &str, txt: Option<&str>, json: Option<&str>, relative: Option<&str>) -> ExportItem {
    ExportItem {
        id: id.to_string(),
        status: status.to_string(),
        relative_path: relative.map(str::to_string),
        transcript_path: txt.map(str::to_string),
        json_path: json.map(str::to_string),
    }
}

#[test]
fn rejects_export_when_no_completed_transcripts_exist() {
    let items = vec![item("item-a", "error", Some("/tmp/x.txt"), None, None)];
    let prepared = collect_export_sources(&items, &ExportOptions::default()).expect("nothing to read");
    assert!(prepared.is_empty());
}

#[test]
fn missing_transcripts_stop_the_export() {
    let items = vec![item("item-a", "Completed", Some(" /definitely/missing/a.txt "), None, None)];
    assert_eq!(
        collect_export_sources(&items, &ExportOptions::default()),
        Err("Transcript file not found: /definitely/missing/a.txt".to_string())
    );
}

#[test]
fn taken_names_get_numbered_variants() {
    let mut used = Vec::new();
    assert_eq!(dedupe_path("dir/a.txt".to_string(), &mut used), "dir/a.txt");
    assert_eq!(dedupe_path("dir/a.txt".to_string(), &mut used), "dir/a-2.txt");
    assert_eq!(dedupe_path("dir/a.txt".to_string(), &mut used), "dir/a-3.txt");
    assert_eq!(dedupe_path("notes".to_string(), &mut used), "notes");
    assert_eq!(dedupe_path("notes".to_string(), &mut used), "notes-2");
    assert_eq!(used.len(), 5);
}

#[test]
fn parent_paths_keep_only_ordinary_components() {
    assert_eq!(sanitize_parent_path(Some("batch-one/deep/b.wav")), "batch-one/deep");
    assert_eq!(sanitize_parent_path(Some("../../etc/passwd")), "etc");
    assert_eq!(sanitize_parent_path(Some("/abs/x.wav")), "abs");
    assert_eq!(sanitize_parent_path(Some("b.wav")), "");
    assert_eq!(sanitize_parent_path(None), "");
}

#[test]
fn metadata_counts_items_by_status() {
    let items = vec![
        item("a", "completed", Some("/a.txt"), None, None),
        item("b", "ERROR", None, None, None),
        item("c", "queued", None, None, None),
    ];
    let files = vec![PreparedExportFile {
        source_path: "/a.txt".to_string(),
        export_path: "a.txt".to_string(),
        item_id: "a".to_string(),
    }];
    let metadata = build_metadata(&items, &files);
    assert_eq!((metadata.total_items, metadata.completed_items, metadata.failed_items), (3, 1, 1));
    assert_eq!(metadata.exported_files, 1);
    assert_eq!(metadata.entries[0].exported_path, "a.txt");
    assert!(metadata.exported_at.contains('T'));
}

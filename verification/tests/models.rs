use metadata_cleaner::db::{FileRow, ScanRow};
use metadata_cleaner::models::{FileRecord, FileStatus, ScanRecord, ScanStatus, UserPreferences};

#[test]
fn user_preferences_default_values() {
    let prefs = UserPreferences::default();
    assert!(prefs.recursive_default);
    assert!(prefs.backup_enabled);
    assert_eq!(prefs.theme, "dark");
    assert!(prefs.last_scan_path.is_none());
}

#[test]
fn scan_status_serialization_round_trip() {
    let statuses = vec![
        ScanStatus::InProgress,
        ScanStatus::Completed,
        ScanStatus::Failed("Some error".into()),
    ];
    for status in statuses {
        let json = status.to_json();
        let back: ScanStatus = ScanStatus::from_json(&json).expect("deserialize");
        assert_eq!(status, back);
    }
}

#[test]
fn file_status_serialization_round_trip() {
    let statuses = vec![
        FileStatus::Scanned,
        FileStatus::Cleaned,
        FileStatus::Error("io error".into()),
        FileStatus::Skipped,
    ];
    for status in statuses {
        let json = status.to_json();
        let back: FileStatus = FileStatus::from_json(&json).expect("deserialize");
        assert_eq!(status, back);
    }
}

#[test]
fn status_json_matches_serde_layout() {
    assert_eq!(ScanStatus::InProgress.to_json(), "\"InProgress\"");
    assert_eq!(ScanStatus::Completed.to_json(), "\"Completed\"");
    assert_eq!(ScanStatus::Failed("Some error".into()).to_json(), "{\"Failed\":\"Some error\"}");
    assert_eq!(FileStatus::Scanned.to_json(), "\"Scanned\"");
    assert_eq!(FileStatus::Cleaned.to_json(), "\"Cleaned\"");
    assert_eq!(FileStatus::Skipped.to_json(), "\"Skipped\"");
    assert_eq!(FileStatus::Error("io error".into()).to_json(), "{\"Error\":\"io error\"}");
}

#[test]
fn status_json_escapes_messages() {
    let tricky = "say \"hi\"\\\n\ttab";
    let json = ScanStatus::Failed(tricky.into()).to_json();
    assert_eq!(json, "{\"Failed\":\"say \\\"hi\\\"\\\\\\n\\ttab\"}");
    assert_eq!(ScanStatus::from_json(&json), Some(ScanStatus::Failed(tricky.into())));
    assert_eq!(
        ScanStatus::Failed("\u{1}\u{8}\u{c}\u{1f}\u{7f}/".into()).to_json(),
        "{\"Failed\":\"\\u0001\\b\\f\\u001f\u{7f}/\"}"
    );
    let unicode = "caf\u{e9} \u{2014} \u{1F600}";
    let json = FileStatus::Error(unicode.into()).to_json();
    assert_eq!(FileStatus::from_json(&json), Some(FileStatus::Error(unicode.into())));
}

#[test]
fn status_json_rejects_other_text() {
    assert_eq!(ScanStatus::from_json(""), None);
    assert_eq!(ScanStatus::from_json("\"Scanned\""), None);
    assert_eq!(ScanStatus::from_json("{\"Error\":\"x\"}"), None);
    assert_eq!(ScanStatus::from_json("{\"Failed\":\"x\"}}"), None);
    assert_eq!(ScanStatus::from_json("{\"Failed\":3}"), None);
    assert_eq!(ScanStatus::from_json("Completed"), None);
    assert_eq!(FileStatus::from_json("\"Completed\""), None);
    assert_eq!(FileStatus::from_json("{\"Failed\":\"x\"}"), None);
    assert_eq!(FileStatus::from_json("not json"), None);
}

#[test]
fn status_json_reads_serde_string_forms() {
    assert_eq!(ScanStatus::from_json("\"Completed\"\n"), Some(ScanStatus::Completed));
    assert_eq!(ScanStatus::from_json("\"In\\u0050rogress\""), Some(ScanStatus::InProgress));
}

#[test]
fn status_json_reads_serde_object_forms() {
    assert_eq!(ScanStatus::from_json("{\"Failed\" : \"x\"}"), Some(ScanStatus::Failed("x".into())));
    assert_eq!(ScanStatus::from_json(" {\"Failed\":\"x\"} \n"), Some(ScanStatus::Failed("x".into())));
    assert_eq!(ScanStatus::from_json("{\n  \"Failed\": \"a b\"\n}"), Some(ScanStatus::Failed("a b".into())));
    assert_eq!(ScanStatus::from_json("{\"\\u0046ailed\":\"x\"}"), Some(ScanStatus::Failed("x".into())));
    assert_eq!(ScanStatus::from_json("{\"InProgress\":null}"), Some(ScanStatus::InProgress));
    assert_eq!(ScanStatus::from_json("{ \"Completed\" : null }\n"), Some(ScanStatus::Completed));
    assert_eq!(FileStatus::from_json("{\"Error\":\"\\\"q\\\"\"}"), Some(FileStatus::Error("\"q\"".into())));
    assert_eq!(FileStatus::from_json("{\"Skipped\":null}"), Some(FileStatus::Skipped));
    assert_eq!(FileStatus::from_json("\t{\"Cleaned\" :null}"), Some(FileStatus::Cleaned));
}

#[test]
fn status_json_rejects_mismatched_object_forms() {
    assert_eq!(ScanStatus::from_json("{\"Failed\":null}"), None);
    assert_eq!(ScanStatus::from_json("{\"Completed\":\"x\"}"), None);
    assert_eq!(ScanStatus::from_json("{\"Failed\":\"x\",\"y\":1}"), None);
    assert_eq!(ScanStatus::from_json("{\"Failed\":\"x\"} x"), None);
    assert_eq!(ScanStatus::from_json("{\"Failed\" \"x\"}"), None);
    assert_eq!(ScanStatus::from_json("{\"Failed\":\"\\x\"}"), None);
    assert_eq!(ScanStatus::from_json("{\"InProgress\":nul}"), None);
    assert_eq!(FileStatus::from_json("{\"Error\":null}"), None);
    assert_eq!(FileStatus::from_json("\"Error\""), None);
}

fn sample_scan(timestamp: &str) -> ScanRecord {
    ScanRecord {
        id: "scan-1".into(),
        timestamp: timestamp.into(),
        root_path: "/tmp/photos".into(),
        recursive: true,
        total_files: 42,
        cleaned_files: 10,
        status: ScanStatus::Failed("Cancelled by user".into()),
    }
}

#[test]
fn scan_row_round_trip() {
    let scan = sample_scan("2026-02-28T14:30:00+01:00");
    let row = scan.to_row();
    assert_eq!(row.status, "{\"Failed\":\"Cancelled by user\"}");
    assert_eq!(row.timestamp, "2026-02-28T14:30:00+01:00");
    let back = ScanRecord::from_row(row);
    assert_eq!(back.id, "scan-1");
    assert_eq!(back.timestamp, "2026-02-28T14:30:00+01:00");
    assert_eq!(back.root_path, "/tmp/photos");
    assert!(back.recursive);
    assert_eq!(back.total_files, 42);
    assert_eq!(back.cleaned_files, 10);
    assert_eq!(back.status, ScanStatus::Failed("Cancelled by user".into()));
}

#[test]
fn scan_row_with_bad_status_reads_as_parse_error() {
    let row = ScanRow {
        id: "x".into(),
        timestamp: "2026-02-28T14:30:00Z".into(),
        root_path: "/r".into(),
        recursive: false,
        total_files: 0,
        cleaned_files: 0,
        status: "garbage".into(),
    };
    let rec = ScanRecord::from_row(row);
    assert_eq!(rec.status, ScanStatus::Failed("Parse Error".into()));
    assert_eq!(rec.timestamp, "2026-02-28T14:30:00Z");
}

#[test]
fn scan_row_with_bad_timestamp_gets_current_time() {
    let mut row = sample_scan("2026-02-28T14:30:00Z").to_row();
    row.timestamp = "yesterday".into();
    let rec = ScanRecord::from_row(row);
    assert_ne!(rec.timestamp, "yesterday");
    assert!(chrono::DateTime::parse_from_rfc3339(&rec.timestamp).is_ok());
    assert_eq!(rec.status, ScanStatus::Failed("Cancelled by user".into()));
}

#[test]
fn file_row_round_trip() {
    let file = FileRecord {
        id: "f1".into(),
        scan_id: "scan1".into(),
        path: "/tmp/video.mp4".into(),
        file_type: "mp4".into(),
        metadata: Some("{\"GPS\":\"51.5,-0.1\"}".into()),
        status: FileStatus::Error("io error".into()),
    };
    let row = file.to_row();
    assert_eq!(row.status, "{\"Error\":\"io error\"}");
    let back = FileRecord::from_row(row);
    assert_eq!(back.id, "f1");
    assert_eq!(back.scan_id, "scan1");
    assert_eq!(back.path, "/tmp/video.mp4");
    assert_eq!(back.file_type, "mp4");
    assert_eq!(back.metadata.as_deref(), Some("{\"GPS\":\"51.5,-0.1\"}"));
    assert_eq!(back.status, FileStatus::Error("io error".into()));
}

#[test]
fn file_row_with_bad_status_reads_as_parse_error() {
    let row = FileRow {
        id: "f".into(),
        scan_id: "s".into(),
        path: "/p.jpg".into(),
        file_type: "jpg".into(),
        metadata: None,
        status: "{\"Error\":".into(),
    };
    assert_eq!(FileRecord::from_row(row).status, FileStatus::Error("Parse Error".into()));
}

#[test]
fn preferences_from_missing_row_are_defaults() {
    let prefs = UserPreferences::from_row(None);
    assert!(prefs.recursive_default);
    assert!(prefs.backup_enabled);
    assert_eq!(prefs.theme, "dark");
    assert!(prefs.last_scan_path.is_none());
}

#[test]
fn preferences_from_saved_row() {
    let saved = UserPreferences {
        recursive_default: false,
        backup_enabled: false,
        theme: "light".to_string(),
        last_scan_path: Some("/home/user/Desktop".to_string()),
    };
    let prefs = UserPreferences::from_row(Some(saved));
    assert!(!prefs.recursive_default);
    assert!(!prefs.backup_enabled);
    assert_eq!(prefs.theme, "light");
    assert_eq!(prefs.last_scan_path.as_deref(), Some("/home/user/Desktop"));
}

#[test]
fn theme_choice() {
    let mut prefs = UserPreferences::default();
    assert!(prefs.uses_dark_theme());
    prefs.theme = "light".into();
    assert!(!prefs.uses_dark_theme());
    prefs.theme = "Dark".into();
    assert!(!prefs.uses_dark_theme());
    assert_eq!(UserPreferences::theme_choices(), vec!["light".to_string(), "dark".to_string()]);
}

#[test]
fn scan_status_labels() {
    assert_eq!(ScanStatus::Completed.label(), "Completed");
    assert_eq!(ScanStatus::InProgress.label(), "In Progress");
    assert_eq!(ScanStatus::Failed("disk full".into()).label(), "Failed: disk full");
}

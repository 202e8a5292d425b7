use metadata_cleaner::cleaner::{CleanAction, CleanEvent, CleanJob, CleanPhase};
use metadata_cleaner::messages::CleanResult;
use metadata_cleaner::models::{FileRecord, FileStatus};
use metadata_cleaner::exiftool::ExifTool;
use metadata_cleaner::export::{generate_default_filename, report_filename, ReportFormat, export_message};

fn record(id: &str, path: &str) -> FileRecord {
    FileRecord {
        id: id.into(),
        scan_id: "s".into(),
        path: path.into(),
        file_type: "jpg".into(),
        metadata: None,
        status: FileStatus::Scanned,
    }
}

fn sent(action: CleanAction) -> CleanResult {
    match action {
        CleanAction::Send(r) => r,
        other => panic!("expected a report, got {:?}", other),
    }
}

fn finished(action: CleanAction) -> CleanResult {
    match action {
        CleanAction::Finish(r) => r,
        other => panic!("expected the final report, got {:?}", other),
    }
}

#[test]
fn clean_job_counts() {
    let files = vec![record("a", "/p/a.jpg"), record("b", "/p/b.png"), record("c", "/p/c.pdf")];
    let mut job = CleanJob::new(files, false);
    assert!(matches!(job.step(CleanEvent::Start), CleanAction::Clean { .. }));
    let r = sent(job.step(CleanEvent::Cleaned(Ok(()))));
    assert_eq!((r.file_id.as_str(), r.success, r.total_cleaned, r.total_remaining), ("a", true, 1, 2));
    assert!(r.error_msg.is_none());
    assert!(matches!(job.step(CleanEvent::Delivered), CleanAction::Clean { .. }));
    let r = sent(job.step(CleanEvent::Cleaned(Err("Failed to clean metadata: boom".into()))));
    assert_eq!(r.file_id, "b");
    assert!(!r.success);
    assert_eq!(r.error_msg.as_deref(), Some("Failed to clean metadata: boom"));
    assert_eq!((r.total_cleaned, r.total_remaining), (1, 1));
    assert!(matches!(job.step(CleanEvent::Delivered), CleanAction::Clean { .. }));
    let r = sent(job.step(CleanEvent::Cleaned(Ok(()))));
    assert_eq!((r.file_id.as_str(), r.total_cleaned, r.total_remaining), ("c", 2, 0));
    let end = finished(job.step(CleanEvent::Delivered));
    assert_eq!(end.file_id, "");
    assert!(end.success);
    assert!(end.error_msg.is_none());
    assert_eq!(end.total_cleaned, 2);
    assert_eq!(end.total_remaining, 0);
    assert_eq!(job.phase, CleanPhase::Done);
}

#[test]
fn clean_steps_with_and_without_backup() {
    let mut job = CleanJob::new(vec![record("a", "/p/a.jpg")], true);
    match job.step(CleanEvent::Start) {
        CleanAction::Backup { from, to } => {
            assert_eq!(from, "/p/a.jpg");
            assert_eq!(to, "/p/a.jpg.original");
        }
        other => panic!("expected a backup first, got {:?}", other),
    }
    match job.step(CleanEvent::BackedUp) {
        CleanAction::Clean { args } => {
            assert_eq!(args, vec!["-all=".to_string(), "/p/a.jpg".to_string()])
        }
        other => panic!("expected the clean after the backup, got {:?}", other),
    }
    let mut job = CleanJob::new(vec![record("a", "/p/a.jpg")], false);
    match job.step(CleanEvent::Start) {
        CleanAction::Clean { args } => assert_eq!(
            args,
            vec!["-all=".to_string(), "-overwrite_original".to_string(), "/p/a.jpg".to_string()]
        ),
        other => panic!("expected the clean at once, got {:?}", other),
    }
}

#[test]
fn clean_run_with_backups_copies_before_each_clean() {
    let files = vec![record("a", "/p/a.jpg"), record("b", "/p/b.jpg")];
    let mut job = CleanJob::new(files, true);
    assert!(matches!(job.step(CleanEvent::Start), CleanAction::Backup { .. }));
    assert!(matches!(job.step(CleanEvent::BackedUp), CleanAction::Clean { .. }));
    let r = sent(job.step(CleanEvent::Cleaned(Ok(()))));
    assert_eq!((r.file_id.as_str(), r.total_cleaned, r.total_remaining), ("a", 1, 1));
    match job.step(CleanEvent::Delivered) {
        CleanAction::Backup { from, .. } => assert_eq!(from, "/p/b.jpg"),
        other => panic!("expected the second backup, got {:?}", other),
    }
    assert!(matches!(job.step(CleanEvent::BackedUp), CleanAction::Clean { .. }));
    let r = sent(job.step(CleanEvent::Cleaned(Ok(()))));
    assert_eq!((r.file_id.as_str(), r.total_cleaned, r.total_remaining), ("b", 2, 0));
    assert_eq!(finished(job.step(CleanEvent::Delivered)).total_cleaned, 2);
}

#[test]
fn clean_run_stops_when_receiver_is_gone() {
    let files = vec![record("a", "/p/a.jpg"), record("b", "/p/b.jpg")];
    let mut job = CleanJob::new(files, false);
    job.step(CleanEvent::Start);
    let r = sent(job.step(CleanEvent::Cleaned(Ok(()))));
    assert_eq!(r.total_remaining, 1);
    let end = finished(job.step(CleanEvent::Undeliverable));
    assert_eq!((end.file_id.as_str(), end.total_cleaned, end.total_remaining), ("", 1, 0));
    assert_eq!(job.phase, CleanPhase::Done);
}

#[test]
fn clean_run_over_no_files_finishes_at_once() {
    let mut job = CleanJob::new(Vec::new(), true);
    let end = finished(job.step(CleanEvent::Start));
    assert_eq!((end.total_cleaned, end.total_remaining), (0, 0));
}

#[test]
fn exiftool_command_lines() {
    assert_eq!(ExifTool::program(), "exiftool");
    assert_eq!(ExifTool::version_args(), vec!["-ver".to_string()]);
    assert_eq!(
        ExifTool::metadata_args("/x y/z.png"),
        vec!["-j".to_string(), "-g".to_string(), "/x y/z.png".to_string()]
    );
    assert_eq!(ExifTool::backup_path("photo.jpg"), "photo.jpg.original");
}

#[test]
fn exiftool_outcomes() {
    assert!(ExifTool::clean_outcome(true, b"ignored").is_ok());
    assert_eq!(
        ExifTool::clean_outcome(false, b"Error: File not found - x.jpg\n"),
        Err("Failed to clean metadata: Error: File not found - x.jpg\n".to_string())
    );
    assert_eq!(
        ExifTool::clean_outcome(false, b"bad \xff byte"),
        Err("Failed to clean metadata: bad \u{FFFD} byte".to_string())
    );
}

#[test]
fn exiftool_metadata_outcomes() {
    assert_eq!(
        ExifTool::metadata_outcome(false, b"[]", b"oops"),
        Err("ExifTool failed: oops".to_string())
    );
    assert_eq!(
        ExifTool::metadata_outcome(true, b"[{\"SourceFile\": \"a.jpg\", \"EXIF\": {\"Make\": \"X\"}}, {\"b\": 1}]", b""),
        Ok("{\"EXIF\":{\"Make\":\"X\"},\"SourceFile\":\"a.jpg\"}".to_string())
    );
    assert_eq!(
        ExifTool::metadata_outcome(true, b"[]\n", b""),
        Err("No metadata found".to_string())
    );
    let err = ExifTool::metadata_outcome(true, b"not json", b"").unwrap_err();
    assert_eq!(err, serde_json::from_str::<Vec<serde_json::Value>>("not json").unwrap_err().to_string());
}

#[test]
fn generate_default_filename_has_correct_format() {
    let json_name = generate_default_filename("json");
    assert!(json_name.starts_with("scan_report_"));
    assert!(json_name.ends_with(".json"));

    let csv_name = generate_default_filename("csv");
    assert!(csv_name.ends_with(".csv"));
}

#[test]
fn default_filename_stamp_shape() {
    let name = generate_default_filename("json");
    let stamp = &name["scan_report_".len()..name.len() - ".json".len()];
    assert!(!stamp.starts_with('+'));
    assert_eq!(stamp.len(), 15);
    assert_eq!(&stamp[8..9], "_");
    assert!(stamp.chars().enumerate().all(|(i, c)| i == 8 || c.is_ascii_digit()));
}

#[test]
fn report_names_and_formats() {
    assert_eq!(report_filename("20260228_143000", "json"), "scan_report_20260228_143000.json");
    assert_eq!(ReportFormat::for_path("/tmp/r.csv"), ReportFormat::Csv);
    assert_eq!(ReportFormat::for_path("/tmp/r.json"), ReportFormat::Json);
    assert_eq!(ReportFormat::for_path("/tmp/r.CSV"), ReportFormat::Json);
    assert_eq!(ReportFormat::for_path("csv"), ReportFormat::Json);
    assert_eq!(ReportFormat::for_path(".csv"), ReportFormat::Csv);
    assert_eq!(export_message("/tmp/r.json", Ok(())), "Report exported to /tmp/r.json");
    assert_eq!(export_message("/tmp/r.json", Err("disk full".into())), "Export failed: disk full");
}

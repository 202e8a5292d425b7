use metadata_cleaner::app::{AppState, CleanProgress, Effect, Poll};
use metadata_cleaner::messages::{
    CleanResult, FileListMessage, HistoryPageMessage, Message, Page, ScannerMessageWrapper,
    ScannerPageMessage, SettingsMessage,
};
use metadata_cleaner::models::{FileRecord, FileStatus, ScanRecord, ScanStatus, UserPreferences};
use metadata_cleaner::scanner::ScannerMessage;

fn file(id: &str, path: &str, status: FileStatus) -> FileRecord {
    FileRecord {
        id: id.into(),
        scan_id: "scan".into(),
        path: path.into(),
        file_type: "jpg".into(),
        metadata: None,
        status,
    }
}

fn fresh() -> AppState {
    AppState::new(UserPreferences::default(), true, false)
}

#[test]
fn initial_state() {
    let s = fresh();
    assert_eq!(s.current_page, Page::Scanner);
    assert!(!s.scanning && !s.cleaning);
    assert_eq!(s.status_text, "Ready - drag a folder here or click Browse.");
    assert_eq!(s.path_input, "");
    let s = AppState::new(UserPreferences::default(), false, false);
    assert_eq!(
        s.status_text,
        "ExifTool not found - install it from https://exiftool.org to enable cleaning."
    );
    let mut prefs = UserPreferences::default();
    prefs.last_scan_path = Some("/home/u/Pictures".into());
    let s = AppState::new(prefs, true, true);
    assert_eq!(
        s.status_text,
        "WSL detected - type a folder path in the box and press Enter or click Scan."
    );
    assert_eq!(s.path_input, "/home/u/Pictures");
}

#[test]
fn switching_to_history_loads_it() {
    let mut s = fresh();
    let fx = s.update(Message::SwitchPage(Page::History));
    assert_eq!(s.current_page, Page::History);
    assert!(matches!(fx.as_slice(), [Effect::LoadHistory]));
    let scans = vec![ScanRecord {
        id: "a".into(),
        timestamp: "2026-01-01T00:00:00Z".into(),
        root_path: "/x".into(),
        recursive: true,
        total_files: 1,
        cleaned_files: 0,
        status: ScanStatus::Completed,
    }];
    s.history_loaded(Some(scans));
    assert_eq!(s.history.len(), 1);
    s.history_loaded(None);
    assert_eq!(s.history.len(), 1);
    let fx = s.update(Message::SwitchPage(Page::Scanner));
    assert!(fx.is_empty());
    assert_eq!(s.current_page, Page::Scanner);
}

#[test]
fn choosing_a_folder_starts_a_scan() {
    let mut s = fresh();
    s.files.push(file("old", "/old.jpg", FileStatus::Scanned));
    let fx = s.update(Message::DirectorySelected(Some("/tmp/photos".into())));
    assert_eq!(s.path_input, "/tmp/photos");
    assert_eq!(s.preferences.last_scan_path.as_deref(), Some("/tmp/photos"));
    assert!(s.scanning);
    assert!(s.files.is_empty());
    assert_eq!(s.scan_progress, 0);
    assert_eq!(s.status_text, "Scanning /tmp/photos\u{2026}");
    let id = s.current_scan_id.clone().expect("scan id");
    assert!(has_uuid_v4_layout(&id), "{}", id);
    assert_eq!(fx.len(), 3);
    match &fx[0] {
        Effect::SavePreferences(p) => assert_eq!(p.last_scan_path.as_deref(), Some("/tmp/photos")),
        other => panic!("unexpected {:?}", other),
    }
    match &fx[1] {
        Effect::SaveScan(r) => {
            assert_eq!(r.id, id);
            assert_eq!(r.root_path, "/tmp/photos");
            assert!(r.recursive);
            assert_eq!(r.status, ScanStatus::InProgress);
            assert!(chrono::DateTime::parse_from_rfc3339(&r.timestamp).is_ok());
        },
        other => panic!("unexpected {:?}", other),
    }
    match &fx[2] {
        Effect::StartScanner { root_path, scan_id, recursive } => {
            assert_eq!(root_path, "/tmp/photos");
            assert_eq!(scan_id, &id);
            assert!(*recursive);
        },
        other => panic!("unexpected {:?}", other),
    }
}

#[test]
fn dropped_folder_does_not_touch_path_box() {
    let mut s = fresh();
    s.path_input = "typed".into();
    let fx = s.update(Message::FileDropped("/drop".into()));
    assert_eq!(s.path_input, "typed");
    assert_eq!(s.preferences.last_scan_path.as_deref(), Some("/drop"));
    assert_eq!(fx.len(), 3);
}

#[test]
fn typed_path_is_trimmed() {
    let mut s = fresh();
    s.update(Message::ScannerPage(ScannerPageMessage::PathInputChanged("  /tmp/docs \n".into())));
    assert_eq!(s.path_input, "  /tmp/docs \n");
    let fx = s.update(Message::ScannerPage(ScannerPageMessage::ScanPath));
    assert_eq!(s.preferences.last_scan_path.as_deref(), Some("/tmp/docs"));
    assert_eq!(s.status_text, "Scanning /tmp/docs\u{2026}");
    assert_eq!(fx.len(), 3);
}

#[test]
fn empty_path_opens_picker_or_explains_wsl() {
    let mut s = fresh();
    s.path_input = "\u{3000} \t".into();
    let fx = s.update(Message::ScannerPage(ScannerPageMessage::ScanPath));
    assert!(matches!(fx.as_slice(), [Effect::PickFolder]));
    let mut w = AppState::new(UserPreferences::default(), true, true);
    let fx = w.update(Message::ScannerPage(ScannerPageMessage::SelectDirectory));
    assert!(fx.is_empty());
    assert_eq!(
        w.status_text,
        "File picker unavailable in WSL - type the folder path in the box above and press Enter."
    );
}

#[test]
fn scan_reports_flow() {
    let mut s = fresh();
    s.update(Message::DirectorySelected(Some("/p".into())));
    let id = s.current_scan_id.clone().unwrap();
    let fx = s.scan_polled(Poll::Received(ScannerMessage::FoundFile(file("f1", "/p/a.jpg", FileStatus::Scanned))));
    assert_eq!(fx.len(), 2);
    assert!(matches!(&fx[0], Effect::SaveFile(f) if f.id == "f1"));
    let msg = match fx.into_iter().nth(1).unwrap() {
        Effect::Dispatch(m) => m,
        other => panic!("unexpected {:?}", other),
    };
    let fx = s.update(msg);
    assert!(fx.is_empty());
    assert_eq!(s.files.len(), 1);
    assert_eq!(s.status_text, "Scanning\u{2026} 1 files found so far");
    assert_eq!(s.scan_progress, 1);
    let fx = s.update(Message::ScanProgress(ScannerMessageWrapper::Completed(1)));
    assert!(!s.scanning);
    assert_eq!(s.scan_progress, 100);
    assert_eq!(s.status_text, "Scan complete \u{2014} 1 files found.");
    assert_eq!(fx.len(), 2);
    assert!(matches!(&fx[0], Effect::UpdateScanStatus { scan_id, status: ScanStatus::Completed } if *scan_id == id));
    assert!(matches!(&fx[1], Effect::UpdateScanTotals { scan_id, total_files: 1, cleaned_files: 0 } if *scan_id == id));
    let fx = s.scan_polled(Poll::Disconnected);
    assert!(matches!(fx.as_slice(), [Effect::CloseScanChannel, Effect::Dispatch(Message::ScanFinished)]));
    assert!(s.scan_polled(Poll::Empty).is_empty());
}

#[test]
fn scan_progress_wraps_at_one_hundred() {
    let mut s = fresh();
    for i in 0..100 {
        s.update(Message::ScanProgress(ScannerMessageWrapper::FoundFile(file(&format!("{}", i), "/x.png", FileStatus::Scanned))));
    }
    assert_eq!(s.scan_progress, 0);
    assert_eq!(s.status_text, "Scanning\u{2026} 100 files found so far");
}

#[test]
fn scan_errors() {
    let mut s = fresh();
    s.scanning = true;
    s.status_text = "before".into();
    s.update(Message::ScanProgress(ScannerMessageWrapper::Error("Scan cancelled".into())));
    assert!(!s.scanning);
    assert_eq!(s.status_text, "before");
    s.scanning = true;
    s.update(Message::ScanProgress(ScannerMessageWrapper::Error("permission denied".into())));
    assert!(!s.scanning);
    assert_eq!(s.status_text, "Scan error: permission denied");
}

#[test]
fn cancel_marks_scan_failed() {
    let mut s = fresh();
    let fx = s.update(Message::CancelScan);
    assert!(matches!(fx.as_slice(), [Effect::SignalCancel]));
    s.update(Message::DirectorySelected(Some("/p".into())));
    s.update(Message::ScanProgress(ScannerMessageWrapper::FoundFile(file("f1", "/p/a.jpg", FileStatus::Scanned))));
    s.update(Message::ScanProgress(ScannerMessageWrapper::FoundFile(file("f2", "/p/b.jpg", FileStatus::Scanned))));
    let fx = s.update(Message::ScannerPage(ScannerPageMessage::CancelScan));
    assert!(!s.scanning);
    assert_eq!(s.status_text, "Scan cancelled.");
    assert_eq!(fx.len(), 3);
    assert!(matches!(&fx[1], Effect::UpdateScanStatus { status: ScanStatus::Failed(m), .. } if m == "Cancelled by user"));
    assert!(matches!(&fx[2], Effect::UpdateScanTotals { total_files: 2, cleaned_files: 0, .. }));
}

#[test]
fn clean_requires_exiftool_and_files() {
    let mut s = AppState::new(UserPreferences::default(), false, false);
    s.files.push(file("a", "/a.jpg", FileStatus::Scanned));
    let fx = s.update(Message::ScannerPage(ScannerPageMessage::CleanMetadata));
    assert!(fx.is_empty());
    assert_eq!(s.status_text, "ExifTool is not installed. Please install it from https://exiftool.org");
    let mut s = fresh();
    s.files.push(file("a", "/a.jpg", FileStatus::Cleaned));
    let fx = s.update(Message::ScannerPage(ScannerPageMessage::CleanMetadata));
    assert!(fx.is_empty());
    assert!(!s.cleaning);
    assert_eq!(
        s.status_text,
        "No files to clean \u{2014} run a scan first, or all files are already cleaned."
    );
}

#[test]
fn cleaning_flow() {
    let mut s = fresh();
    s.current_scan_id = Some("scan".into());
    s.files.push(file("a", "/a.jpg", FileStatus::Scanned));
    s.files.push(file("b", "/b.jpg", FileStatus::Cleaned));
    s.files.push(file("c", "/c.jpg", FileStatus::Scanned));
    let fx = s.update(Message::ScannerPage(ScannerPageMessage::CleanMetadata));
    assert!(s.cleaning);
    assert_eq!(s.status_text, "Cleaning 2 files\u{2026}");
    assert_eq!(s.clean_progress, CleanProgress::Part { done: 0, of: 0 });
    match &fx[..] {
        [Effect::StartCleaner { files, backup }] => {
            assert_eq!(files.iter().map(|f| f.id.as_str()).collect::<Vec<_>>(), vec!["a", "c"]);
            assert!(*backup);
        },
        other => panic!("unexpected {:?}", other),
    }
    let fx = s.clean_polled(Poll::Received(CleanResult {
        file_id: "a".into(),
        success: true,
        error_msg: None,
        total_cleaned: 1,
        total_remaining: 1,
    }));
    assert_eq!(s.files[0].status, FileStatus::Cleaned);
    assert!(matches!(&fx[..], [Effect::UpdateFileStatus { file_id, file_status: FileStatus::Cleaned }] if file_id == "a"));
    assert_eq!(s.clean_progress, CleanProgress::Part { done: 2, of: 3 });
    assert_eq!(s.status_text, "Cleaning\u{2026} 2 of 3 files done");
    s.clean_polled(Poll::Received(CleanResult {
        file_id: "c".into(),
        success: false,
        error_msg: Some("locked".into()),
        total_cleaned: 1,
        total_remaining: 0,
    }));
    assert_eq!(s.files[2].status, FileStatus::Error("locked".into()));
    let fx = s.clean_polled(Poll::Received(CleanResult {
        file_id: String::new(),
        success: true,
        error_msg: None,
        total_cleaned: 1,
        total_remaining: 0,
    }));
    assert!(!s.cleaning);
    assert_eq!(s.clean_progress, CleanProgress::Complete);
    assert_eq!(s.status_text, "Cleaning complete \u{2014} 1/3 files cleaned.");
    assert!(matches!(&fx[..], [Effect::CloseCleanChannel, Effect::UpdateScanTotals { total_files: 3, cleaned_files: 1, .. }]));
}

#[test]
fn clean_report_for_unknown_file_changes_no_file() {
    let mut s = fresh();
    s.files.push(file("a", "/a.jpg", FileStatus::Scanned));
    s.clean_polled(Poll::Received(CleanResult {
        file_id: "zzz".into(),
        success: false,
        error_msg: None,
        total_cleaned: 0,
        total_remaining: 0,
    }));
    assert_eq!(s.files[0].status, FileStatus::Scanned);
    let fx = s.clean_polled(Poll::Disconnected);
    assert!(matches!(fx.as_slice(), [Effect::CloseCleanChannel]));
}

#[test]
fn settings_are_saved() {
    let mut s = fresh();
    let fx = s.update(Message::ScannerPage(ScannerPageMessage::Settings(SettingsMessage::RecursiveToggled(false))));
    assert!(!s.preferences.recursive_default);
    assert!(matches!(&fx[..], [Effect::SavePreferences(p)] if !p.recursive_default));
    s.update(Message::ScannerPage(ScannerPageMessage::Settings(SettingsMessage::BackupToggled(false))));
    assert!(!s.preferences.backup_enabled);
    s.update(Message::ScannerPage(ScannerPageMessage::Settings(SettingsMessage::ThemeSelected("light".into()))));
    assert_eq!(s.preferences.theme, "light");
    assert!(!s.preferences.uses_dark_theme());
}

#[test]
fn history_view_and_misc_messages() {
    let mut s = fresh();
    let fx = s.update(Message::HistoryPage(HistoryPageMessage::ViewScan("old".into())));
    assert!(matches!(&fx[..], [Effect::LoadScanFiles(id)] if id == "old"));
    s.current_page = Page::History;
    s.scan_files_loaded("old".into(), Some(vec![file("x", "/x.jpg", FileStatus::Cleaned)]));
    assert_eq!(s.current_page, Page::Scanner);
    assert_eq!(s.current_scan_id.as_deref(), Some("old"));
    assert_eq!(s.status_text, "Loaded scan from history.");
    assert_eq!(s.scan_progress, 100);
    assert_eq!(s.files.len(), 1);
    s.update(Message::ScannerPage(ScannerPageMessage::FileList(FileListMessage::SelectFile("x".into()))));
    assert_eq!(s.selected_file_id.as_deref(), Some("x"));
    let fx = s.update(Message::ScannerPage(ScannerPageMessage::ExportReport));
    assert!(matches!(&fx[..], [Effect::ExportReport(files)] if files.len() == 1));
    s.update(Message::ExportComplete(String::new()));
    assert_eq!(s.status_text, "Loaded scan from history.");
    s.update(Message::ExportComplete("Report exported to /r.json".into()));
    assert_eq!(s.status_text, "Report exported to /r.json");
    assert!(matches!(s.update(Message::ScanTick).as_slice(), [Effect::PollScanner]));
    assert!(matches!(s.update(Message::CleanTick).as_slice(), [Effect::PollCleaner]));
    assert!(matches!(s.update(Message::HistoryPage(HistoryPageMessage::LoadHistory)).as_slice(), [Effect::LoadHistory]));
    s.scanning = true;
    assert!(s.update(Message::ScanFinished).is_empty());
    assert!(!s.scanning);
    assert!(s.update(Message::DirectorySelected(None)).is_empty());
}

fn has_uuid_v4_layout(id: &str) -> bool {
    let c: Vec<char> = id.chars().collect();
    c.len() == 36
        && c.iter().enumerate().all(|(i, ch)| {
            if [8, 13, 18, 23].contains(&i) {
                *ch == '-'
            } else {
                ch.is_ascii_digit() || ('a'..='f').contains(ch)
            }
        })
        && c[14] == '4'
        && ['8', '9', 'a', 'b'].contains(&c[19])
}

use metadata_cleaner::app::{AppState, CleanProgress};
use metadata_cleaner::display::{count_label, FileTally};
use metadata_cleaner::models::{FileRecord, FileStatus, UserPreferences};
use metadata_cleaner::platform::detect_wsl;
use metadata_cleaner::text::{contains_text, decimal, decimal_unsigned, ends_with_text, lowercase, same_text, trim};

fn file(status: FileStatus) -> FileRecord {
    FileRecord {
        id: "i".into(),
        scan_id: "s".into(),
        path: "/p".into(),
        file_type: "png".into(),
        metadata: None,
        status,
    }
}

#[test]
fn tally_counts() {
    let files = vec![
        file(FileStatus::Scanned),
        file(FileStatus::Cleaned),
        file(FileStatus::Error("x".into())),
        file(FileStatus::Cleaned),
        file(FileStatus::Skipped),
    ];
    let t = FileTally::of(&files);
    assert_eq!(t, FileTally { total: 5, cleaned: 2, errors: 1 });
    assert_eq!(t.summary(), "5 files  |  2 cleaned  |  1 errors");
    assert_eq!(FileTally::of(&vec![]), FileTally { total: 0, cleaned: 0, errors: 0 });
}

#[test]
fn controls() {
    let mut s = AppState::new(UserPreferences::default(), true, false);
    assert!(!s.can_clean());
    assert!(!s.can_export());
    assert!(s.can_browse());
    assert!(s.shows_empty_hint());
    assert_eq!(s.browse_label(), "Browse\u{2026}");
    assert_eq!(s.empty_hint(), "Drag a folder onto the window, or click Browse above.");
    assert_eq!(s.scan_button_label(), "Scan");
    s.files.push(file(FileStatus::Scanned));
    assert!(s.can_clean());
    assert!(s.can_export());
    assert!(!s.shows_empty_hint());
    s.cleaning = true;
    assert!(!s.can_clean());
    assert!(s.shows_clean_progress());
    s.cleaning = false;
    assert!(!s.shows_clean_progress());
    assert!(s.shows_status_line());
    s.clean_progress = CleanProgress::Part { done: 1, of: 2 };
    assert!(s.shows_clean_progress());
    assert!(!s.shows_status_line());
    s.clean_progress = CleanProgress::Complete;
    assert!(s.shows_clean_progress());
    s.scanning = true;
    assert!(s.shows_scan_progress());
    assert_eq!(s.scan_button_label(), "Cancel");
    let w = AppState::new(UserPreferences::default(), false, true);
    assert!(!w.can_clean());
    assert!(!w.can_browse());
    assert_eq!(w.browse_label(), "Browse (N/A)");
    assert_eq!(w.empty_hint(), "Type a folder path in the box above and press Enter or click Scan.");
    assert!(!w.shows_scan_progress());
    assert_eq!(count_label(42, "files"), "42 files");
    assert_eq!(count_label(-3, "cleaned"), "-3 cleaned");
}

#[test]
fn wsl_detection() {
    assert!(!detect_wsl(false, true, Some("Microsoft")));
    assert!(detect_wsl(true, true, None));
    assert!(detect_wsl(true, false, Some("Linux version 5.15.90.1-microsoft-standard-WSL2")));
    assert!(detect_wsl(true, false, Some("Linux version 4.4.0-19041-MICROSOFT")));
    assert!(!detect_wsl(true, false, Some("Linux version 6.8.0-generic (buildd@ubuntu)")));
    assert!(!detect_wsl(true, false, None));
}

#[test]
fn decimal_rendering() {
    assert_eq!(decimal(0), "0");
    assert_eq!(decimal(7), "7");
    assert_eq!(decimal(10), "10");
    assert_eq!(decimal(-42), "-42");
    assert_eq!(decimal(i64::MAX), i64::MAX.to_string());
    assert_eq!(decimal(i64::MIN), i64::MIN.to_string());
    assert_eq!(decimal_unsigned(u64::MAX), u64::MAX.to_string());
    assert_eq!(decimal_unsigned(1000), "1000");
}

#[test]
fn text_helpers() {
    assert!(same_text("abc", "abc"));
    assert!(!same_text("abc", "abd"));
    assert!(!same_text("abc", "ab"));
    assert!(same_text("", ""));
    assert!(same_text("caf\u{e9}", "caf\u{e9}"));
    assert!(ends_with_text("report.csv", ".csv"));
    assert!(!ends_with_text("csv", ".csv"));
    assert!(ends_with_text("x", ""));
    assert!(contains_text("hello world", "o w"));
    assert!(contains_text("abc", ""));
    assert!(!contains_text("abc", "abcd"));
    assert!(!contains_text("aab", "abb"));
    assert_eq!(lowercase("MiCROSOFT \u{C9}"), "microsoft \u{e9}");
    assert_eq!(trim("  a b \t\n"), "a b");
    assert_eq!(trim("   "), "");
    assert_eq!(trim(""), "");
    assert_eq!(trim("\u{3000}\u{a0}x\u{2028}\u{85}"), "x");
    assert_eq!(trim("\u{200b}x\u{200b}"), "\u{200b}x\u{200b}");
    for s in ["  /tmp/a b ", "\t\n", "\u{2000}\u{200a}y\u{205f}", "z", " \u{1680}q\u{202f}\u{2029}"] {
        assert_eq!(trim(s), s.trim());
    }
}

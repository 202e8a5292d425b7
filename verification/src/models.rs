//! The domain model: scans, files, their statuses, and user preferences.
use vstd::prelude::*;

verus! {

/// Where a scan stands.
#[derive(Debug, PartialEq)]
pub enum ScanStatus {
    InProgress,
    Completed,
    Failed(String),
}

/// The mathematical value of a [`ScanStatus`].
pub enum ScanStatusView {
    InProgress,
    Completed,
    Failed(Seq<char>),
}

impl View for ScanStatus {
    type V = ScanStatusView;

    open spec fn view(&self) -> ScanStatusView {
        match self {
            ScanStatus::InProgress => ScanStatusView::InProgress,
            ScanStatus::Completed => ScanStatusView::Completed,
            ScanStatus::Failed(m) => ScanStatusView::Failed(m@),
        }
    }
}

impl Clone for ScanStatus {
    fn clone(&self) -> (r: Self)
        ensures
            r == *self,
    {
        match self {
            ScanStatus::InProgress => ScanStatus::InProgress,
            ScanStatus::Completed => ScanStatus::Completed,
            ScanStatus::Failed(m) => ScanStatus::Failed(m.clone()),
        }
    }
}

/// Where a single file stands.
#[derive(Debug, PartialEq)]
pub enum FileStatus {
    Scanned,
    Cleaned,
    Error(String),
    Skipped,
}

/// The mathematical value of a [`FileStatus`].
pub enum FileStatusView {
    Scanned,
    Cleaned,
    Error(Seq<char>),
    Skipped,
}

impl View for FileStatus {
    type V = FileStatusView;

    open spec fn view(&self) -> FileStatusView {
        match self {
            FileStatus::Scanned => FileStatusView::Scanned,
            FileStatus::Cleaned => FileStatusView::Cleaned,
            FileStatus::Error(m) => FileStatusView::Error(m@),
            FileStatus::Skipped => FileStatusView::Skipped,
        }
    }
}

impl Clone for FileStatus {
    fn clone(&self) -> (r: Self)
        ensures
            r == *self,
    {
        match self {
            FileStatus::Scanned => FileStatus::Scanned,
            FileStatus::Cleaned => FileStatus::Cleaned,
            FileStatus::Error(m) => FileStatus::Error(m.clone()),
            FileStatus::Skipped => FileStatus::Skipped,
        }
    }
}

/// The view of an optional string.
pub open spec fn opt_text(o: Option<String>) -> Option<Seq<char>> {
    match o {
        Some(s) => Some(s@),
        None => None,
    }
}

/// A file found by a scan.
#[derive(Debug)]
pub struct FileRecord {
    pub id: String,
    pub scan_id: String,
    pub path: String,
    pub file_type: String,
    /// JSON text of the file's metadata, when it was read.
    pub metadata: Option<String>,
    pub status: FileStatus,
}

/// The mathematical value of a [`FileRecord`].
pub struct FileRecordView {
    pub id: Seq<char>,
    pub scan_id: Seq<char>,
    pub path: Seq<char>,
    pub file_type: Seq<char>,
    pub metadata: Option<Seq<char>>,
    pub status: FileStatusView,
}

impl View for FileRecord {
    type V = FileRecordView;

    open spec fn view(&self) -> FileRecordView {
        FileRecordView {
            id: self.id@,
            scan_id: self.scan_id@,
            path: self.path@,
            file_type: self.file_type@,
            metadata: opt_text(self.metadata),
            status: self.status@,
        }
    }
}

impl Clone for FileRecord {
    fn clone(&self) -> (r: Self)
        ensures
            r == *self,
    {
        FileRecord {
            id: self.id.clone(),
            scan_id: self.scan_id.clone(),
            path: self.path.clone(),
            file_type: self.file_type.clone(),
            metadata: self.metadata.clone(),
            status: self.status.clone(),
        }
    }
}

/// One run of the scanner over a directory.
#[derive(Debug)]
pub struct ScanRecord {
    pub id: String,
    /// When the scan started, as RFC 3339 text in local time.
    pub timestamp: String,
    pub root_path: String,
    pub recursive: bool,
    pub total_files: i32,
    pub cleaned_files: i32,
    pub status: ScanStatus,
}

/// The mathematical value of a [`ScanRecord`].
pub struct ScanRecordView {
    pub id: Seq<char>,
    pub timestamp: Seq<char>,
    pub root_path: Seq<char>,
    pub recursive: bool,
    pub total_files: i32,
    pub cleaned_files: i32,
    pub status: ScanStatusView,
}

impl View for ScanRecord {
    type V = ScanRecordView;

    open spec fn view(&self) -> ScanRecordView {
        ScanRecordView {
            id: self.id@,
            timestamp: self.timestamp@,
            root_path: self.root_path@,
            recursive: self.recursive,
            total_files: self.total_files,
            cleaned_files: self.cleaned_files,
            status: self.status@,
        }
    }
}

impl Clone for ScanRecord {
    fn clone(&self) -> (r: Self)
        ensures
            r == *self,
    {
        ScanRecord {
            id: self.id.clone(),
            timestamp: self.timestamp.clone(),
            root_path: self.root_path.clone(),
            recursive: self.recursive,
            total_files: self.total_files,
            cleaned_files: self.cleaned_files,
            status: self.status.clone(),
        }
    }
}

/// The settings a user keeps between runs.
#[derive(Debug)]
pub struct UserPreferences {
    pub recursive_default: bool,
    pub backup_enabled: bool,
    /// `"light"` or `"dark"`.
    pub theme: String,
    pub last_scan_path: Option<String>,
}

/// The mathematical value of [`UserPreferences`].
pub struct UserPreferencesView {
    pub recursive_default: bool,
    pub backup_enabled: bool,
    pub theme: Seq<char>,
    pub last_scan_path: Option<Seq<char>>,
}

impl View for UserPreferences {
    type V = UserPreferencesView;

    open spec fn view(&self) -> UserPreferencesView {
        UserPreferencesView {
            recursive_default: self.recursive_default,
            backup_enabled: self.backup_enabled,
            theme: self.theme@,
            last_scan_path: opt_text(self.last_scan_path),
        }
    }
}

impl Clone for UserPreferences {
    fn clone(&self) -> (r: Self)
        ensures
            r == *self,
    {
        UserPreferences {
            recursive_default: self.recursive_default,
            backup_enabled: self.backup_enabled,
            theme: self.theme.clone(),
            last_scan_path: self.last_scan_path.clone(),
        }
    }
}

/// The preferences of a first run.
pub open spec fn default_preferences() -> UserPreferencesView {
    UserPreferencesView {
        recursive_default: true,
        backup_enabled: true,
        theme: "dark"@,
        last_scan_path: None,
    }
}

impl Default for UserPreferences {
    fn default() -> (p: Self)
        ensures
            p@ == default_preferences(),
    {
        UserPreferences {
            recursive_default: true,
            backup_enabled: true,
            theme: String::from_str("dark"),
            last_scan_path: None,
        }
    }
}

} // verus!

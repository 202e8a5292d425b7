//! The messages of the user interface: what the widgets, the timers and the
//! background workers report to the application.
use vstd::prelude::*;
use crate::models::FileRecord;

verus! {

/// The two pages of the application.
#[derive(Debug, Clone, Copy, PartialEq, Eq)]
pub enum Page {
    Scanner,
    History,
}

/// A click in the file list.
#[derive(Debug, Clone)]
pub enum FileListMessage {
    SelectFile(String),
}

/// A change in the settings panel.
#[derive(Debug, Clone)]
pub enum SettingsMessage {
    RecursiveToggled(bool),
    BackupToggled(bool),
    ThemeSelected(String),
}

/// An action on the scanner page.
#[derive(Debug, Clone)]
pub enum ScannerPageMessage {
    FileList(FileListMessage),
    Settings(SettingsMessage),
    SelectDirectory,
    CancelScan,
    CleanMetadata,
    ExportReport,
    PathInputChanged(String),
    ScanPath,
}

/// An action on the history page.
#[derive(Debug, Clone)]
pub enum HistoryPageMessage {
    LoadHistory,
    ViewScan(String),
}

/// A scanner report, as the interface receives it.
#[derive(Debug, Clone)]
pub enum ScannerMessageWrapper {
    FoundFile(FileRecord),
    Completed(i32),
    Error(String),
}

/// Everything the application reacts to. Paths arrive as text.
#[derive(Debug, Clone)]
pub enum Message {
    ScannerPage(ScannerPageMessage),
    HistoryPage(HistoryPageMessage),
    SwitchPage(Page),
    FileDropped(String),
    ScanProgress(ScannerMessageWrapper),
    ScanFinished,
    ScanTick,
    CleanTick,
    ExportComplete(String),
    DirectorySelected(Option<String>),
    CancelScan,
}

/// What the cleaning worker reports after each file, and once at the end
/// with an empty `file_id`.
#[derive(Debug, Clone)]
pub struct CleanResult {
    pub file_id: String,
    pub success: bool,
    pub error_msg: Option<String>,
    pub total_cleaned: i32,
    pub total_remaining: i32,
}

} // verus!

//! The rows the database keeps for scans, files and preferences, and how
//! records turn into rows and back. Running the SQL is the caller's part.
use vstd::prelude::*;
use crate::clock::{clock_rfc3339_shape, local_now_rfc3339, parses_as_rfc3339, rfc3339_valid};
use crate::codec::{file_status_of_text, file_status_text, scan_status_of_text, scan_status_text};
use crate::models::{
    default_preferences, opt_text, FileRecord, FileRecordView, FileStatus, FileStatusView, ScanRecord,
    ScanRecordView, ScanStatus, ScanStatusView, UserPreferences,
};

verus! {

/// A row of the `scans` table.
#[derive(Debug)]
pub struct ScanRow {
    pub id: String,
    pub timestamp: String,
    pub root_path: String,
    pub recursive: bool,
    pub total_files: i32,
    pub cleaned_files: i32,
    /// The stored text of the status (see [`crate::codec`]).
    pub status: String,
}

/// A row of the `files` table.
#[derive(Debug)]
pub struct FileRow {
    pub id: String,
    pub scan_id: String,
    pub path: String,
    pub file_type: String,
    pub metadata: Option<String>,
    /// The stored text of the status (see [`crate::codec`]).
    pub status: String,
}

/// What a stored scan status reads as: the status it denotes, or
/// `Failed("Parse Error")` where it denotes none.
pub open spec fn scan_status_or_parse_error(t: Seq<char>) -> ScanStatusView {
    match scan_status_of_text(t) {
        Some(s) => s,
        None => ScanStatusView::Failed("Parse Error"@),
    }
}

/// What a stored file status reads as: the status it denotes, or
/// `Error("Parse Error")` where it denotes none.
pub open spec fn file_status_or_parse_error(t: Seq<char>) -> FileStatusView {
    match file_status_of_text(t) {
        Some(s) => s,
        None => FileStatusView::Error("Parse Error"@),
    }
}

/// The record a scan row reads as, its timestamp taken as stored.
pub open spec fn scan_record_of_row(row: ScanRow) -> ScanRecordView {
    ScanRecordView {
        id: row.id@,
        timestamp: row.timestamp@,
        root_path: row.root_path@,
        recursive: row.recursive,
        total_files: row.total_files,
        cleaned_files: row.cleaned_files,
        status: scan_status_or_parse_error(row.status@),
    }
}

/// The record a file row reads as.
pub open spec fn file_record_of_row(row: FileRow) -> FileRecordView {
    FileRecordView {
        id: row.id@,
        scan_id: row.scan_id@,
        path: row.path@,
        file_type: row.file_type@,
        metadata: opt_text(row.metadata),
        status: file_status_or_parse_error(row.status@),
    }
}

impl ScanRecord {
    /// The row that saving this scan writes. Reading the row back gives
    /// this record again.
    pub fn to_row(&self) -> (row: ScanRow)
        ensures
            row.id@ == self.id@,
            row.timestamp@ == self.timestamp@,
            row.root_path@ == self.root_path@,
            row.recursive == self.recursive,
            row.total_files == self.total_files,
            row.cleaned_files == self.cleaned_files,
            row.status@ == scan_status_text(self.status@),
            scan_record_of_row(row) == self@,
    {
        ScanRow {
            id: self.id.clone(),
            timestamp: self.timestamp.clone(),
            root_path: self.root_path.clone(),
            recursive: self.recursive,
            total_files: self.total_files,
            cleaned_files: self.cleaned_files,
            status: self.status.to_json(),
        }
    }

    /// The record a scan row reads as. A status text that denotes no
    /// status reads as `Failed("Parse Error")`; a timestamp that is not
    /// RFC 3339 is replaced by the current time, rendered in RFC 3339.
    pub fn from_row(row: ScanRow) -> (r: ScanRecord)
        ensures
            rfc3339_valid(row.timestamp@) ==> r@ == scan_record_of_row(row),
            !rfc3339_valid(row.timestamp@) ==> r@ == (ScanRecordView {
                timestamp: r.timestamp@,
                ..scan_record_of_row(row)
            }) && clock_rfc3339_shape(r.timestamp@),
    {
        let status = match ScanStatus::from_json(row.status.as_str()) {
            Some(s) => s,
            None => ScanStatus::Failed(String::from_str("Parse Error")),
        };
        let timestamp = if parses_as_rfc3339(row.timestamp.as_str()) {
            row.timestamp
        } else {
            local_now_rfc3339()
        };
        ScanRecord {
            id: row.id,
            timestamp,
            root_path: row.root_path,
            recursive: row.recursive,
            total_files: row.total_files,
            cleaned_files: row.cleaned_files,
            status,
        }
    }
}

impl FileRecord {
    /// The row that saving this file writes. Reading the row back gives
    /// this record again.
    pub fn to_row(&self) -> (row: FileRow)
        ensures
            row.id@ == self.id@,
            row.scan_id@ == self.scan_id@,
            row.path@ == self.path@,
            row.file_type@ == self.file_type@,
            opt_text(row.metadata) == opt_text(self.metadata),
            row.status@ == file_status_text(self.status@),
            file_record_of_row(row) == self@,
    {
        FileRow {
            id: self.id.clone(),
            scan_id: self.scan_id.clone(),
            path: self.path.clone(),
            file_type: self.file_type.clone(),
            metadata: self.metadata.clone(),
            status: self.status.to_json(),
        }
    }

    /// The record a file row reads as. A status text that denotes no
    /// status reads as `Error("Parse Error")`.
    pub fn from_row(row: FileRow) -> (r: FileRecord)
        ensures
            r@ == file_record_of_row(row),
    {
        let status = match FileStatus::from_json(row.status.as_str()) {
            Some(s) => s,
            None => FileStatus::Error(String::from_str("Parse Error")),
        };
        FileRecord {
            id: row.id,
            scan_id: row.scan_id,
            path: row.path,
            file_type: row.file_type,
            metadata: row.metadata,
            status,
        }
    }
}

impl UserPreferences {
    /// The preferences the single preferences row holds, or the defaults
    /// where there is no row yet.
    pub fn from_row(row: Option<UserPreferences>) -> (p: UserPreferences)
        ensures
            match row {
                Some(saved) => p@ == saved@,
                None => p@ == default_preferences(),
            },
    {
        match row {
            Some(saved) => saved,
            None => UserPreferences::default(),
        }
    }
}

} // verus!

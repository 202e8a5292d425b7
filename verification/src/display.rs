//! What the pages show, apart from drawing it: labels, counts, and which
//! controls are live.
use vstd::prelude::*;
use crate::app::{AppState, CleanProgress};
use crate::models::{FileRecord, ScanStatus, ScanStatusView, UserPreferences};
use crate::text::{decimal, decimal_text, decimal_unsigned, same_text};

verus! {

/// The label of a scan status in the history list.
pub open spec fn status_label_text(s: ScanStatusView) -> Seq<char> {
    match s {
        ScanStatusView::Completed => "Completed"@,
        ScanStatusView::InProgress => "In Progress"@,
        ScanStatusView::Failed(m) => "Failed: "@ + m,
    }
}

impl ScanStatus {
    /// The label of this status in the history list.
    pub fn label(&self) -> (l: String)
        ensures
            l@ == status_label_text(self@),
    {
        match self {
            ScanStatus::Completed => String::from_str("Completed"),
            ScanStatus::InProgress => String::from_str("In Progress"),
            ScanStatus::Failed(m) => {
                let mut l = String::from_str("Failed: ");
                l.append(m.as_str());
                l
            },
        }
    }
}

impl UserPreferences {
    /// Whether the dark theme is chosen; any other theme name means light.
    pub fn uses_dark_theme(&self) -> (d: bool)
        ensures
            d == (self.theme@ == "dark"@),
    {
        same_text(self.theme.as_str(), "dark")
    }

    /// The themes the settings panel offers.
    pub fn theme_choices() -> (v: Vec<String>)
        ensures
            v.deep_view() == seq!["light"@, "dark"@],
    {
        let mut v: Vec<String> = Vec::new();
        v.push(String::from_str("light"));
        v.push(String::from_str("dark"));
        assert(v.deep_view() =~= seq!["light"@, "dark"@]);
        v
    }
}

/// The files already cleaned.
pub open spec fn cleaned_files(files: Seq<FileRecord>) -> Seq<FileRecord> {
    files.filter(|f: FileRecord| f.status is Cleaned)
}

/// The files whose cleaning failed.
pub open spec fn failed_files(files: Seq<FileRecord>) -> Seq<FileRecord> {
    files.filter(|f: FileRecord| f.status is Error)
}

/// The counts under the file list.
#[derive(Debug, Clone, Copy, PartialEq, Eq)]
pub struct FileTally {
    pub total: usize,
    pub cleaned: usize,
    pub errors: usize,
}

/// The line under the file list.
pub open spec fn tally_text(total: int, cleaned: int, errors: int) -> Seq<char> {
    decimal_text(total) + " files  |  "@ + decimal_text(cleaned) + " cleaned  |  "@
        + decimal_text(errors) + " errors"@
}

impl FileTally {
    /// Counts the files, the cleaned ones and the failed ones.
    pub fn of(files: &Vec<FileRecord>) -> (t: FileTally)
        ensures
            t.total == files@.len(),
            t.cleaned == cleaned_files(files@).len(),
            t.errors == failed_files(files@).len(),
    {
        let n = files.len();
        let mut cleaned: usize = 0;
        let mut errors: usize = 0;
        let mut i: usize = 0;
        while i < n
            invariant
                n == files@.len(),
                i <= n,
                cleaned == cleaned_files(files@.take(i as int)).len(),
                errors == failed_files(files@.take(i as int)).len(),
                cleaned <= i,
                errors <= i,
            decreases n - i,
        {
            proof {
                assert(files@.take(i + 1) =~= files@.take(i as int).push(files@[i as int]));
                files@.take(i as int).lemma_filter_push(
                    files@[i as int],
                    |f: FileRecord| f.status is Cleaned,
                );
                files@.take(i as int).lemma_filter_push(
                    files@[i as int],
                    |f: FileRecord| f.status is Error,
                );
            }
            match files[i].status {
                crate::models::FileStatus::Cleaned => {
                    cleaned = cleaned + 1;
                },
                crate::models::FileStatus::Error(_) => {
                    errors = errors + 1;
                },
                _ => {},
            }
            i = i + 1;
        }
        assert(files@.take(n as int) =~= files@);
        FileTally { total: n, cleaned, errors }
    }

    /// The line under the file list, such as `3 files  |  2 cleaned  |  1 errors`.
    pub fn summary(&self) -> (s: String)
        ensures
            s@ == tally_text(self.total as int, self.cleaned as int, self.errors as int),
    {
        let mut s = decimal_unsigned(self.total as u64);
        s.append(" files  |  ");
        let c = decimal_unsigned(self.cleaned as u64);
        s.append(c.as_str());
        s.append(" cleaned  |  ");
        let e = decimal_unsigned(self.errors as u64);
        s.append(e.as_str());
        s.append(" errors");
        s
    }
}

/// A count with a word after it, as the history list shows them.
pub fn count_label(n: i32, word: &str) -> (s: String)
    ensures
        s@ == decimal_text(n as int) + seq![' '] + word@,
{
    proof {
        reveal_strlit(" ");
    }
    let mut s = decimal(n as i64);
    s.append(" ");
    s.append(word);
    assert(s@ =~= decimal_text(n as int) + seq![' '] + word@);
    s
}

impl CleanProgress {
    /// Whether the cleaning bar shows more than nothing: the interface
    /// shows `done / of` as a percentage when `of` is positive, and 0
    /// otherwise.
    pub fn is_positive(&self) -> (b: bool)
        ensures
            b == match *self {
                CleanProgress::Part { done, of } => of > 0 && done > 0,
                CleanProgress::Complete => true,
            },
    {
        match self {
            CleanProgress::Part { done, of } => *of > 0 && *done > 0,
            CleanProgress::Complete => true,
        }
    }

    /// Whether the cleaning bar stands at 0.
    pub fn is_zero(&self) -> (b: bool)
        ensures
            b == match *self {
                CleanProgress::Part { done, of } => of <= 0 || done == 0,
                CleanProgress::Complete => false,
            },
    {
        match self {
            CleanProgress::Part { done, of } => *of <= 0 || *done == 0,
            CleanProgress::Complete => false,
        }
    }
}

impl AppState {
    /// Whether the clean button is live: ExifTool is there, no cleaning
    /// runs, and there are files.
    pub fn can_clean(&self) -> (b: bool)
        ensures
            b == (self.exiftool_available && !self.cleaning && self.files@.len() > 0),
    {
        self.exiftool_available && !self.cleaning && self.files.len() > 0
    }

    /// Whether the export button is live: there are files.
    pub fn can_export(&self) -> (b: bool)
        ensures
            b == (self.files@.len() > 0),
    {
        self.files.len() > 0
    }

    /// Whether the browse button is live: not inside WSL.
    pub fn can_browse(&self) -> (b: bool)
        ensures
            b == !self.is_wsl,
    {
        !self.is_wsl
    }

    /// The label of the browse button.
    pub fn browse_label(&self) -> (l: &'static str)
        ensures
            l@ == if self.is_wsl { "Browse (N/A)"@ } else { "Browse\u{2026}"@ },
    {
        if self.is_wsl {
            "Browse (N/A)"
        } else {
            "Browse\u{2026}"
        }
    }

    /// The hint shown where the file list would be.
    pub fn empty_hint(&self) -> (l: &'static str)
        ensures
            l@ == if self.is_wsl {
                "Type a folder path in the box above and press Enter or click Scan."@
            } else {
                "Drag a folder onto the window, or click Browse above."@
            },
    {
        if self.is_wsl {
            "Type a folder path in the box above and press Enter or click Scan."
        } else {
            "Drag a folder onto the window, or click Browse above."
        }
    }

    /// Whether the hint shows instead of the file list: no files and no
    /// scan running.
    pub fn shows_empty_hint(&self) -> (b: bool)
        ensures
            b == (self.files@.len() == 0 && !self.scanning),
    {
        self.files.len() == 0 && !self.scanning
    }

    /// Whether the scan progress bar shows.
    pub fn shows_scan_progress(&self) -> (b: bool)
        ensures
            b == (self.scanning || self.scan_progress > 0),
    {
        self.scanning || self.scan_progress > 0
    }

    /// Whether the cleaning progress bar shows.
    pub fn shows_clean_progress(&self) -> (b: bool)
        ensures
            b == (self.cleaning || match self.clean_progress {
                CleanProgress::Part { done, of } => of > 0 && done > 0,
                CleanProgress::Complete => true,
            }),
    {
        self.cleaning || self.clean_progress.is_positive()
    }

    /// Whether the plain status line shows: no scan running and the
    /// cleaning bar at 0.
    pub fn shows_status_line(&self) -> (b: bool)
        ensures
            b == (!self.scanning && match self.clean_progress {
                CleanProgress::Part { done, of } => of <= 0 || done == 0,
                CleanProgress::Complete => false,
            }),
    {
        !self.scanning && self.clean_progress.is_zero()
    }

    /// The label of the scan button: it cancels while a scan runs.
    pub fn scan_button_label(&self) -> (l: &'static str)
        ensures
            l@ == if self.scanning { "Cancel"@ } else { "Scan"@ },
    {
        if self.scanning {
            "Cancel"
        } else {
            "Scan"
        }
    }
}

} // verus!

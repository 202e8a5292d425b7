//! The application's state machine. [`AppState::update`] takes a message
//! and returns, beside the new state, the effects for the caller to carry
//! out in order: database writes and reads, dialogs, background workers and
//! messages to dispatch. Where an effect yields data the state needs, the
//! caller hands it back through the matching method
//! ([`AppState::history_loaded`], [`AppState::scan_files_loaded`],
//! [`AppState::scan_polled`], [`AppState::clean_polled`]).
use vstd::prelude::*;
use crate::clock::local_now_rfc3339;
use crate::models::{FileRecord, FileStatus, ScanRecord, ScanStatus, UserPreferences};
use crate::messages::{
    CleanResult, FileListMessage, HistoryPageMessage, Message, Page, ScannerMessageWrapper,
    ScannerPageMessage, SettingsMessage,
};
use crate::scanner::{new_record_id, ScannerMessage};
use crate::text::{decimal, decimal_unsigned, same_text, trim, trimmed_text};
use crate::transitions::{
    after_cancel, clean_channel_polled, clean_requested, file_count, files_to_clean, initial_status_text,
    still_scanned,
    folder_chosen, picker_requested, preferences_after, scan_channel_polled, scan_reported,
    scan_started, updated,
};

verus! {

/// How far cleaning has come: `done` of `of` files, or finished. The
/// interface shows `done / of` as a percentage, and 0 while `of` is 0.
#[derive(Debug, Clone, Copy, PartialEq, Eq)]
pub enum CleanProgress {
    Part { done: i32, of: i32 },
    Complete,
}

/// What the caller carries out for the state machine.
#[derive(Debug)]
pub enum Effect {
    /// Read every stored scan, newest first, and hand them to
    /// [`AppState::history_loaded`].
    LoadHistory,
    SavePreferences(UserPreferences),
    /// Open the folder picker; a choice comes back as
    /// `Message::DirectorySelected`.
    PickFolder,
    SaveScan(ScanRecord),
    /// Start the directory scanner in the background.
    StartScanner { root_path: String, scan_id: String, recursive: bool },
    /// Raise the running scanner's cancel flag.
    SignalCancel,
    UpdateScanStatus { scan_id: String, status: ScanStatus },
    UpdateScanTotals { scan_id: String, total_files: i32, cleaned_files: i32 },
    /// Read the files of a scan and hand them to
    /// [`AppState::scan_files_loaded`].
    LoadScanFiles(String),
    SaveFile(FileRecord),
    UpdateFileStatus { file_id: String, file_status: FileStatus },
    /// Deliver this message to [`AppState::update`] later.
    Dispatch(Message),
    /// Look for a scanner report and hand what was found to
    /// [`AppState::scan_polled`].
    PollScanner,
    /// Look for a cleaning report and hand what was found to
    /// [`AppState::clean_polled`].
    PollCleaner,
    /// Drop the channel of the scanner's reports.
    CloseScanChannel,
    /// Drop the channel of the cleaning worker's reports.
    CloseCleanChannel,
    /// Ask where to save a report of these files, write it, and dispatch
    /// `Message::ExportComplete`.
    ExportReport(Vec<FileRecord>),
    /// Start the cleaning worker on these files.
    StartCleaner { files: Vec<FileRecord>, backup: bool },
}

/// What a look at a channel found.
#[derive(Debug)]
pub enum Poll<T> {
    Received(T),
    Empty,
    Disconnected,
}

/// The state of the application.
#[derive(Debug)]
pub struct AppState {
    pub current_page: Page,
    pub files: Vec<FileRecord>,
    pub history: Vec<ScanRecord>,
    pub preferences: UserPreferences,
    pub scanning: bool,
    pub cleaning: bool,
    /// Percentage shown by the scan progress bar.
    pub scan_progress: u32,
    pub clean_progress: CleanProgress,
    pub status_text: String,
    pub selected_file_id: Option<String>,
    pub exiftool_available: bool,
    pub is_wsl: bool,
    pub current_scan_id: Option<String>,
    pub path_input: String,
}

impl AppState {
    /// Whether the state is consistent: the scan progress is a percentage.
    pub open spec fn wf(&self) -> bool {
        self.scan_progress <= 100
    }

    /// The state at start-up, with the saved preferences, whether ExifTool
    /// was found, and whether the program runs inside WSL. The path box
    /// shows the last folder scanned.
    pub fn new(preferences: UserPreferences, exiftool_available: bool, is_wsl: bool) -> (s: AppState)
        ensures
            s.wf(),
            s.current_page == Page::Scanner,
            s.files@.len() == 0,
            s.history@.len() == 0,
            s.preferences == preferences,
            !s.scanning,
            !s.cleaning,
            s.scan_progress == 0,
            s.clean_progress == (CleanProgress::Part { done: 0, of: 0 }),
            s.status_text@ == initial_status_text(is_wsl, exiftool_available),
            s.selected_file_id is None,
            s.exiftool_available == exiftool_available,
            s.is_wsl == is_wsl,
            s.current_scan_id is None,
            s.path_input@ == match preferences.last_scan_path {
                Some(p) => p@,
                None => Seq::<char>::empty(),
            },
    {
        let status_text = if is_wsl {
            String::from_str(
                "WSL detected - type a folder path in the box and press Enter or click Scan.",
            )
        } else if exiftool_available {
            String::from_str("Ready - drag a folder here or click Browse.")
        } else {
            String::from_str(
                "ExifTool not found - install it from https://exiftool.org to enable cleaning.",
            )
        };
        let path_input = match &preferences.last_scan_path {
            Some(p) => p.clone(),
            None => String::new(),
        };
        AppState {
            current_page: Page::Scanner,
            files: Vec::new(),
            history: Vec::new(),
            preferences,
            scanning: false,
            cleaning: false,
            scan_progress: 0,
            clean_progress: CleanProgress::Part { done: 0, of: 0 },
            status_text,
            selected_file_id: None,
            exiftool_available,
            is_wsl,
            current_scan_id: None,
            path_input,
        }
    }

    /// Starts a scan of `path`: empties the file list, records a new scan
    /// and starts the scanner.
    pub fn start_scan(&mut self, path: String) -> (fx: Vec<Effect>)
        requires
            old(self).wf(),
        ensures
            final(self).wf(),
            scan_started(*old(self), *final(self), fx@, path@),
    {
        self.files = Vec::new();
        self.scanning = true;
        self.scan_progress = 0;
        self.selected_file_id = None;
        let mut status = String::from_str("Scanning ");
        status.append(path.as_str());
        status.append("\u{2026}");
        self.status_text = status;
        let scan_id = new_record_id();
        let record = ScanRecord {
            id: scan_id.clone(),
            timestamp: local_now_rfc3339(),
            root_path: path.clone(),
            recursive: self.preferences.recursive_default,
            total_files: 0,
            cleaned_files: 0,
            status: ScanStatus::InProgress,
        };
        let mut fx: Vec<Effect> = Vec::new();
        fx.push(Effect::SaveScan(record));
        self.current_scan_id = Some(scan_id.clone());
        fx.push(Effect::StartScanner {
            root_path: path,
            scan_id,
            recursive: self.preferences.recursive_default,
        });
        fx
    }

    /// Makes `path` the last folder scanned, saves the preferences and
    /// scans it; where `show` holds, the path box shows it too.
    pub fn choose_folder(&mut self, path: String, show: bool) -> (fx: Vec<Effect>)
        requires
            old(self).wf(),
        ensures
            final(self).wf(),
            folder_chosen(*old(self), *final(self), fx@, path@, show),
    {
        if show {
            self.path_input = path.clone();
        }
        self.preferences.last_scan_path = Some(path.clone());
        let mut fx: Vec<Effect> = Vec::new();
        fx.push(Effect::SavePreferences(self.preferences.clone()));
        let mut rest = self.start_scan(path);
        let ghost rv = rest@;
        fx.append(&mut rest);
        assert(fx@.subrange(1, 3) =~= rv);
        fx
    }

    /// Opens the folder picker, or, inside WSL, says that there is none.
    pub fn request_picker(&mut self) -> (fx: Vec<Effect>)
        requires
            old(self).wf(),
        ensures
            final(self).wf(),
            picker_requested(*old(self), *final(self), fx@),
    {
        let mut fx: Vec<Effect> = Vec::new();
        if self.is_wsl {
            self.status_text = String::from_str(
                "File picker unavailable in WSL - type the folder path in the box above and press Enter.",
            );
        } else {
            fx.push(Effect::PickFolder);
        }
        fx
    }

    /// Scans the folder typed in the path box, once trimmed; with an empty
    /// box, opens the folder picker instead.
    pub fn scan_typed_path(&mut self) -> (fx: Vec<Effect>)
        requires
            old(self).wf(),
        ensures
            final(self).wf(),
            trimmed_text(old(self).path_input@).len() == 0 ==> picker_requested(*old(self), *final(self), fx@),
            trimmed_text(old(self).path_input@).len() > 0 ==> folder_chosen(
                *old(self),
                *final(self),
                fx@,
                trimmed_text(old(self).path_input@),
                false,
            ),
    {
        let path = trim(self.path_input.as_str());
        if path.unicode_len() == 0 {
            self.request_picker()
        } else {
            self.choose_folder(path, false)
        }
    }

    /// Starts cleaning the files still `Scanned`, or says why not.
    pub fn start_clean(&mut self) -> (fx: Vec<Effect>)
        requires
            old(self).wf(),
        ensures
            final(self).wf(),
            clean_requested(*old(self), *final(self), fx@),
    {
        let mut fx: Vec<Effect> = Vec::new();
        if !self.exiftool_available {
            self.status_text = String::from_str(
                "ExifTool is not installed. Please install it from https://exiftool.org",
            );
            return fx;
        }
        let n = self.files.len();
        let mut todo: Vec<FileRecord> = Vec::new();
        let mut i: usize = 0;
        while i < n
            invariant
                n == self.files@.len(),
                i <= n,
                todo@ == files_to_clean(self.files@.take(i as int)),
            decreases n - i,
        {
            proof {
                assert(self.files@.take(i + 1) =~= self.files@.take(i as int).push(self.files@[i as int]));
                self.files@.take(i as int).lemma_filter_push(self.files@[i as int], still_scanned());
            }
            let keep = match self.files[i].status {
                FileStatus::Scanned => true,
                _ => false,
            };
            if keep {
                todo.push(self.files[i].clone());
            }
            i = i + 1;
        }
        assert(self.files@.take(n as int) =~= self.files@);
        if todo.len() == 0 {
            self.status_text = String::from_str(
                "No files to clean \u{2014} run a scan first, or all files are already cleaned.",
            );
            return fx;
        }
        let total = todo.len() as i32;
        self.cleaning = true;
        self.clean_progress = CleanProgress::Part { done: 0, of: 0 };
        let mut status = String::from_str("Cleaning ");
        let count = decimal(total as i64);
        status.append(count.as_str());
        status.append(" files\u{2026}");
        self.status_text = status;
        fx.push(Effect::StartCleaner { files: todo, backup: self.preferences.backup_enabled });
        fx
    }

    /// Applies a change from the settings panel and saves the preferences.
    pub fn change_setting(&mut self, m: SettingsMessage) -> (fx: Vec<Effect>)
        requires
            old(self).wf(),
        ensures
            final(self).wf(),
            *final(self) == (AppState { preferences: preferences_after(old(self).preferences, m), ..*old(self) }),
            fx@ == seq![Effect::SavePreferences(final(self).preferences)],
    {
        match m {
            SettingsMessage::RecursiveToggled(v) => {
                self.preferences.recursive_default = v;
            },
            SettingsMessage::BackupToggled(v) => {
                self.preferences.backup_enabled = v;
            },
            SettingsMessage::ThemeSelected(t) => {
                self.preferences.theme = t;
            },
        }
        let mut fx: Vec<Effect> = Vec::new();
        fx.push(Effect::SavePreferences(self.preferences.clone()));
        fx
    }

    /// Takes in a scanner report: a found file joins the list; the total
    /// ends the scan and is recorded; an error ends the scan and, unless it
    /// is the cancellation, shows on the status line.
    pub fn report_scan(&mut self, w: ScannerMessageWrapper) -> (fx: Vec<Effect>)
        requires
            old(self).wf(),
        ensures
            final(self).wf(),
            scan_reported(*old(self), *final(self), fx@, w),
    {
        let mut fx: Vec<Effect> = Vec::new();
        match w {
            ScannerMessageWrapper::FoundFile(f) => {
                self.files.push(f);
                let count = self.files.len();
                let mut status = String::from_str("Scanning\u{2026} ");
                let digits = decimal_unsigned(count as u64);
                status.append(digits.as_str());
                status.append(" files found so far");
                self.status_text = status;
                self.scan_progress = (count % 100) as u32;
            },
            ScannerMessageWrapper::Completed(total) => {
                self.scanning = false;
                self.scan_progress = 100;
                let mut status = String::from_str("Scan complete \u{2014} ");
                let digits = decimal(total as i64);
                status.append(digits.as_str());
                status.append(" files found.");
                self.status_text = status;
                match &self.current_scan_id {
                    Some(id) => {
                        fx.push(Effect::UpdateScanStatus {
                            scan_id: id.clone(),
                            status: ScanStatus::Completed,
                        });
                        fx.push(Effect::UpdateScanTotals {
                            scan_id: id.clone(),
                            total_files: total,
                            cleaned_files: 0,
                        });
                    },
                    None => {},
                }
            },
            ScannerMessageWrapper::Error(e) => {
                self.scanning = false;
                if !same_text(e.as_str(), "Scan cancelled") {
                    let mut status = String::from_str("Scan error: ");
                    status.append(e.as_str());
                    self.status_text = status;
                }
            },
        }
        fx
    }

    /// Takes in what a look at the scanner's channel found.
    pub fn scan_polled(&mut self, p: Poll<ScannerMessage>) -> (fx: Vec<Effect>)
        requires
            old(self).wf(),
        ensures
            final(self).wf(),
            scan_channel_polled(*old(self), *final(self), fx@, p),
    {
        let mut fx: Vec<Effect> = Vec::new();
        match p {
            Poll::Received(ScannerMessage::FoundFile(f)) => {
                fx.push(Effect::SaveFile(f.clone()));
                let ghost g = f;
                fx.push(Effect::Dispatch(Message::ScanProgress(ScannerMessageWrapper::FoundFile(f))));
                assert(fx@ =~= seq![
                    Effect::SaveFile(g),
                    Effect::Dispatch(Message::ScanProgress(ScannerMessageWrapper::FoundFile(g))),
                ]);
            },
            Poll::Received(ScannerMessage::Completed(c)) => {
                fx.push(Effect::Dispatch(Message::ScanProgress(ScannerMessageWrapper::Completed(c))));
                assert(fx@ =~= seq![
                    Effect::Dispatch(Message::ScanProgress(ScannerMessageWrapper::Completed(c))),
                ]);
            },
            Poll::Received(ScannerMessage::Error(e)) => {
                let ghost g = e;
                fx.push(Effect::Dispatch(Message::ScanProgress(ScannerMessageWrapper::Error(e))));
                assert(fx@ =~= seq![
                    Effect::Dispatch(Message::ScanProgress(ScannerMessageWrapper::Error(g))),
                ]);
            },
            Poll::Empty => {},
            Poll::Disconnected => {
                fx.push(Effect::CloseScanChannel);
                fx.push(Effect::Dispatch(Message::ScanFinished));
                assert(fx@ =~= seq![Effect::CloseScanChannel, Effect::Dispatch(Message::ScanFinished)]);
            },
        }
        fx
    }

    /// Takes in what a look at the cleaning worker's channel found.
    pub fn clean_polled(&mut self, p: Poll<CleanResult>) -> (fx: Vec<Effect>)
        requires
            old(self).wf(),
            p matches Poll::Received(r) ==> (r.file_id@.len() > 0 ==> i32::MIN <= file_count(
                *old(self),
            ) - r.total_remaining <= i32::MAX),
        ensures
            final(self).wf(),
            clean_channel_polled(*old(self), *final(self), fx@, p),
    {
        let mut fx: Vec<Effect> = Vec::new();
        match p {
            Poll::Received(r) => {
                if r.file_id.unicode_len() == 0 {
                    self.cleaning = false;
                    fx.push(Effect::CloseCleanChannel);
                    let cleaned = r.total_cleaned;
                    let total = self.files.len() as i32;
                    self.clean_progress = CleanProgress::Complete;
                    let mut status = String::from_str("Cleaning complete \u{2014} ");
                    let a = decimal(cleaned as i64);
                    status.append(a.as_str());
                    status.append("/");
                    let b = decimal(total as i64);
                    status.append(b.as_str());
                    status.append(" files cleaned.");
                    self.status_text = status;
                    match &self.current_scan_id {
                        Some(id) => {
                            fx.push(Effect::UpdateScanTotals {
                                scan_id: id.clone(),
                                total_files: total,
                                cleaned_files: cleaned,
                            });
                        },
                        None => {
                            assert(fx@ =~= seq![Effect::CloseCleanChannel]);
                        },
                    }
                } else {
                    let new_status = if r.success {
                        FileStatus::Cleaned
                    } else {
                        match &r.error_msg {
                            Some(m) => FileStatus::Error(m.clone()),
                            None => FileStatus::Error(String::new()),
                        }
                    };
                    let ghost before = self.files@;
                    match position_of_id(&self.files, r.file_id.as_str()) {
                        Some(k) => {
                            let mut rec = self.files[k].clone();
                            rec.status = new_status.clone();
                            self.files.set(k, rec);
                            proof {
                                assert(self.files@ == before.update(k as int, self.files@[k as int]));
                            }
                        },
                        None => {},
                    }
                    fx.push(Effect::UpdateFileStatus { file_id: r.file_id, file_status: new_status });
                    let total = self.files.len() as i32;
                    let remaining = r.total_remaining;
                    let done = total - remaining;
                    self.clean_progress = CleanProgress::Part { done, of: total };
                    let mut status = String::from_str("Cleaning\u{2026} ");
                    let a = decimal(done as i64);
                    status.append(a.as_str());
                    status.append(" of ");
                    let b = decimal(total as i64);
                    status.append(b.as_str());
                    status.append(" files done");
                    self.status_text = status;
                }
            },
            Poll::Empty => {},
            Poll::Disconnected => {
                fx.push(Effect::CloseCleanChannel);
                self.cleaning = false;
                assert(fx@ =~= seq![Effect::CloseCleanChannel]);
            },
        }
        fx
    }

    /// Shows the scans read for the history page, if reading succeeded.
    pub fn history_loaded(&mut self, result: Option<Vec<ScanRecord>>)
        requires
            old(self).wf(),
        ensures
            final(self).wf(),
            match result {
                Some(h) => *final(self) == (AppState { history: h, ..*old(self) }),
                None => *final(self) == *old(self),
            },
    {
        match result {
            Some(h) => {
                self.history = h;
            },
            None => {},
        }
    }

    /// Shows the files of a scan from the history, if reading succeeded,
    /// on the scanner page.
    pub fn scan_files_loaded(&mut self, scan_id: String, result: Option<Vec<FileRecord>>)
        requires
            old(self).wf(),
        ensures
            final(self).wf(),
            match result {
                Some(files) => {
                    &&& *final(self) == (AppState {
                        files,
                        current_page: Page::Scanner,
                        current_scan_id: Some(scan_id),
                        status_text: final(self).status_text,
                        scan_progress: 100,
                        ..*old(self)
                    })
                    &&& final(self).status_text@ == "Loaded scan from history."@
                },
                None => *final(self) == *old(self),
            },
    {
        match result {
            Some(files) => {
                self.files = files;
                self.current_page = Page::Scanner;
                self.current_scan_id = Some(scan_id);
                self.status_text = String::from_str("Loaded scan from history.");
                self.scan_progress = 100;
            },
            None => {},
        }
    }

    /// Reacts to a message: updates the state and returns the effects to
    /// carry out, in order.
    pub fn update(&mut self, msg: Message) -> (fx: Vec<Effect>)
        requires
            old(self).wf(),
        ensures
            final(self).wf(),
            updated(*old(self), *final(self), fx@, msg),
    {
        match msg {
            Message::ScannerPage(m) => match m {
                ScannerPageMessage::SelectDirectory => self.request_picker(),
                ScannerPageMessage::CancelScan => self.cancel_scan(),
                ScannerPageMessage::PathInputChanged(v) => {
                    self.path_input = v;
                    Vec::new()
                },
                ScannerPageMessage::ScanPath => self.scan_typed_path(),
                ScannerPageMessage::CleanMetadata => self.start_clean(),
                ScannerPageMessage::ExportReport => {
                    let files = self.files.clone();
                    assert(files@ =~= self.files@);
                    let mut fx: Vec<Effect> = Vec::new();
                    fx.push(Effect::ExportReport(files));
                    fx
                },
                ScannerPageMessage::FileList(FileListMessage::SelectFile(id)) => {
                    self.selected_file_id = Some(id);
                    Vec::new()
                },
                ScannerPageMessage::Settings(s) => self.change_setting(s),
            },
            Message::HistoryPage(m) => {
                let mut fx: Vec<Effect> = Vec::new();
                match m {
                    HistoryPageMessage::LoadHistory => {
                        fx.push(Effect::LoadHistory);
                        assert(fx@ =~= seq![Effect::LoadHistory]);
                    },
                    HistoryPageMessage::ViewScan(id) => {
                        let ghost g = id;
                        fx.push(Effect::LoadScanFiles(id));
                        assert(fx@ =~= seq![Effect::LoadScanFiles(g)]);
                    },
                }
                fx
            },
            Message::SwitchPage(p) => {
                self.current_page = p;
                let mut fx: Vec<Effect> = Vec::new();
                match p {
                    Page::History => {
                        fx.push(Effect::LoadHistory);
                        assert(fx@ =~= seq![Effect::LoadHistory]);
                    },
                    Page::Scanner => {
                        assert(fx@ =~= Seq::<Effect>::empty());
                    },
                }
                fx
            },
            Message::FileDropped(path) => self.choose_folder(path, false),
            Message::ScanProgress(w) => self.report_scan(w),
            Message::ScanFinished => {
                self.scanning = false;
                Vec::new()
            },
            Message::ScanTick => {
                let mut fx: Vec<Effect> = Vec::new();
                fx.push(Effect::PollScanner);
                assert(fx@ =~= seq![Effect::PollScanner]);
                fx
            },
            Message::CleanTick => {
                let mut fx: Vec<Effect> = Vec::new();
                fx.push(Effect::PollCleaner);
                assert(fx@ =~= seq![Effect::PollCleaner]);
                fx
            },
            Message::ExportComplete(m) => {
                if m.unicode_len() != 0 {
                    self.status_text = m;
                }
                Vec::new()
            },
            Message::DirectorySelected(choice) => match choice {
                Some(path) => self.choose_folder(path, true),
                None => Vec::new(),
            },
            Message::CancelScan => self.cancel_scan(),
        }
    }

    /// Stops the scan: raises the cancel flag and marks the scan, if one
    /// is recorded, as failed with the files found so far.
    pub fn cancel_scan(&mut self) -> (fx: Vec<Effect>)
        requires
            old(self).wf(),
        ensures
            final(self).wf(),
            after_cancel(*old(self), *final(self), fx@),
    {
        let mut fx: Vec<Effect> = Vec::new();
        fx.push(Effect::SignalCancel);
        self.scanning = false;
        self.status_text = String::from_str("Scan cancelled.");
        match &self.current_scan_id {
            Some(id) => {
                fx.push(Effect::UpdateScanStatus {
                    scan_id: id.clone(),
                    status: ScanStatus::Failed(String::from_str("Cancelled by user")),
                });
                fx.push(Effect::UpdateScanTotals {
                    scan_id: id.clone(),
                    total_files: self.files.len() as i32,
                    cleaned_files: 0,
                });
            },
            None => {},
        }
        fx
    }
}


/// The position of the first file with this id, if any.
fn position_of_id(files: &Vec<FileRecord>, id: &str) -> (r: Option<usize>)
    ensures
        match r {
            Some(k) => k < files@.len() && files@[k as int].id@ == id@ && forall|j: int|
                0 <= j < k ==> files@[j].id@ != id@,
            None => forall|j: int| 0 <= j < files@.len() ==> files@[j].id@ != id@,
        },
{
    let n = files.len();
    let mut i: usize = 0;
    while i < n
        invariant
            n == files@.len(),
            i <= n,
            forall|j: int| 0 <= j < i ==> files@[j].id@ != id@,
        decreases n - i,
    {
        if same_text(files[i].id.as_str(), id) {
            return Some(i);
        }
        i = i + 1;
    }
    None
}

} // verus!

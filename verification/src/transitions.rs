//! What each message does to the application's state: the texts of the
//! status line, and one predicate per kind of message relating the state
//! before, the state after, and the effects asked for.
use vstd::prelude::*;
use crate::app::{AppState, CleanProgress, Effect, Poll};
use crate::clock::clock_rfc3339_shape;
use crate::messages::{
    CleanResult, FileListMessage, HistoryPageMessage, Message, Page, ScannerMessageWrapper,
    ScannerPageMessage, SettingsMessage,
};
use crate::models::{FileRecord, FileRecordView, FileStatusView, ScanStatusView, UserPreferences};
use crate::scanner::{uuid_v4_text, ScannerMessage};
use crate::text::{decimal_text, trimmed_text};

verus! {

/// The status line of a fresh start.
pub open spec fn initial_status_text(is_wsl: bool, exiftool_available: bool) -> Seq<char> {
    if is_wsl {
        "WSL detected - type a folder path in the box and press Enter or click Scan."@
    } else if exiftool_available {
        "Ready - drag a folder here or click Browse."@
    } else {
        "ExifTool not found - install it from https://exiftool.org to enable cleaning."@
    }
}

/// The status line while a scan has found `count` files.
pub open spec fn scanning_text(count: int) -> Seq<char> {
    "Scanning\u{2026} "@ + decimal_text(count) + " files found so far"@
}

/// The status line when a scan reports its total.
pub open spec fn scan_complete_text(total: int) -> Seq<char> {
    "Scan complete \u{2014} "@ + decimal_text(total) + " files found."@
}

/// The status line while a scan of `path` starts.
pub open spec fn scan_start_text(path: Seq<char>) -> Seq<char> {
    "Scanning "@ + path + "\u{2026}"@
}

/// The status line when cleaning starts on `total` files.
pub open spec fn clean_start_text(total: int) -> Seq<char> {
    "Cleaning "@ + decimal_text(total) + " files\u{2026}"@
}

/// The status line while cleaning has done `done` of `total` files.
pub open spec fn cleaning_text(done: int, total: int) -> Seq<char> {
    "Cleaning\u{2026} "@ + decimal_text(done) + " of "@ + decimal_text(total) + " files done"@
}

/// The status line when cleaning ends.
pub open spec fn clean_complete_text(cleaned: int, total: int) -> Seq<char> {
    "Cleaning complete \u{2014} "@ + decimal_text(cleaned) + "/"@ + decimal_text(total)
        + " files cleaned."@
}

/// The number of files, as the interface counts them in an `i32`.
pub open spec fn file_count(s: AppState) -> i32 {
    s.files@.len() as i32
}

/// What the interface records of a scan that was cancelled.
pub open spec fn cancel_reason() -> Seq<char> {
    "Cancelled by user"@
}

/// The state after a cancel request, with the status line set.
pub open spec fn after_cancel(pre: AppState, post: AppState, fx: Seq<Effect>) -> bool {
    &&& post == AppState { scanning: false, status_text: post.status_text, ..pre }
    &&& post.status_text@ == "Scan cancelled."@
    &&& match pre.current_scan_id {
        Some(id) => {
            &&& fx.len() == 3
            &&& fx[0] is SignalCancel
            &&& fx[1] matches Effect::UpdateScanStatus { scan_id, status }
                && scan_id@ == id@ && status@ == ScanStatusView::Failed(cancel_reason())
            &&& fx[2] matches Effect::UpdateScanTotals { scan_id, total_files, cleaned_files }
                && scan_id@ == id@ && total_files == file_count(pre) && cleaned_files == 0
        },
        None => fx.len() == 1 && fx[0] is SignalCancel,
    }
}

/// The state after a scan of `path` starts: the file list is emptied, a
/// new scan record with a fresh id is saved, and the scanner is started
/// with the preferred recursion.
pub open spec fn scan_started(pre: AppState, post: AppState, fx: Seq<Effect>, path: Seq<char>) -> bool {
    &&& post == AppState {
        files: post.files,
        scanning: true,
        scan_progress: 0,
        selected_file_id: None,
        status_text: post.status_text,
        current_scan_id: post.current_scan_id,
        ..pre
    }
    &&& post.files@.len() == 0
    &&& post.status_text@ == scan_start_text(path)
    &&& match post.current_scan_id {
        Some(id) => {
            &&& uuid_v4_text(id@)
            &&& fx.len() == 2
            &&& fx[0] matches Effect::SaveScan(r)
                && r.id@ == id@
                && clock_rfc3339_shape(r.timestamp@)
                && r.root_path@ == path
                && r.recursive == pre.preferences.recursive_default
                && r.total_files == 0
                && r.cleaned_files == 0
                && r.status is InProgress
            &&& fx[1] matches Effect::StartScanner { root_path, scan_id, recursive }
                && root_path@ == path
                && scan_id@ == id@
                && recursive == pre.preferences.recursive_default
        },
        None => false,
    }
}

/// The state after the user picks `path` to scan: it becomes the last
/// folder scanned (and, where `show` holds, the text of the path box),
/// the preferences are saved, and a scan of it starts.
pub open spec fn folder_chosen(
    pre: AppState,
    post: AppState,
    fx: Seq<Effect>,
    path: Seq<char>,
    show: bool,
) -> bool {
    let mid = AppState {
        preferences: post.preferences,
        path_input: if show { post.path_input } else { pre.path_input },
        ..pre
    };
    &&& show ==> post.path_input@ == path
    &&& post.preferences == UserPreferences {
        last_scan_path: post.preferences.last_scan_path,
        ..pre.preferences
    }
    &&& post.preferences.last_scan_path matches Some(p) && p@ == path
    &&& fx.len() == 3
    &&& fx[0] == Effect::SavePreferences(post.preferences)
    &&& scan_started(mid, post, fx.subrange(1, 3), path)
}

/// The state after a request for the folder picker: inside WSL, where no
/// picker is available, the status line says so; elsewhere the picker
/// opens.
pub open spec fn picker_requested(pre: AppState, post: AppState, fx: Seq<Effect>) -> bool {
    if pre.is_wsl {
        &&& post == AppState { status_text: post.status_text, ..pre }
        &&& post.status_text@
            == "File picker unavailable in WSL - type the folder path in the box above and press Enter."@
        &&& fx.len() == 0
    } else {
        post == pre && fx == seq![Effect::PickFolder]
    }
}

/// The files that cleaning works on: those still `Scanned`.
pub open spec fn files_to_clean(files: Seq<FileRecord>) -> Seq<FileRecord> {
    files.filter(still_scanned())
}

/// Whether a file has not been cleaned or tried yet.
pub open spec fn still_scanned() -> spec_fn(FileRecord) -> bool {
    |f: FileRecord| f.status is Scanned
}

/// The state after a request to clean: without ExifTool the status line
/// says so; with no file left to clean it says that; otherwise the
/// cleaning worker starts on the files still `Scanned`, with the
/// preferred backup setting.
pub open spec fn clean_requested(pre: AppState, post: AppState, fx: Seq<Effect>) -> bool {
    let todo = files_to_clean(pre.files@);
    if !pre.exiftool_available {
        &&& post == AppState { status_text: post.status_text, ..pre }
        &&& post.status_text@ == "ExifTool is not installed. Please install it from https://exiftool.org"@
        &&& fx.len() == 0
    } else if todo.len() == 0 {
        &&& post == AppState { status_text: post.status_text, ..pre }
        &&& post.status_text@
            == "No files to clean \u{2014} run a scan first, or all files are already cleaned."@
        &&& fx.len() == 0
    } else {
        &&& post == AppState {
            cleaning: true,
            clean_progress: CleanProgress::Part { done: 0, of: 0 },
            status_text: post.status_text,
            ..pre
        }
        &&& post.status_text@ == clean_start_text((todo.len() as i32) as int)
        &&& fx.len() == 1
        &&& fx[0] matches Effect::StartCleaner { files, backup }
            && files@ == todo && backup == pre.preferences.backup_enabled
    }
}

/// The preferences after a change in the settings panel.
pub open spec fn preferences_after(p: UserPreferences, m: SettingsMessage) -> UserPreferences {
    match m {
        SettingsMessage::RecursiveToggled(v) => UserPreferences { recursive_default: v, ..p },
        SettingsMessage::BackupToggled(v) => UserPreferences { backup_enabled: v, ..p },
        SettingsMessage::ThemeSelected(t) => UserPreferences { theme: t, ..p },
    }
}

/// The state after a scanner report reaches the interface.
pub open spec fn scan_reported(
    pre: AppState,
    post: AppState,
    fx: Seq<Effect>,
    w: ScannerMessageWrapper,
) -> bool {
    match w {
        ScannerMessageWrapper::FoundFile(f) => {
            &&& post == AppState {
                files: post.files,
                status_text: post.status_text,
                scan_progress: post.scan_progress,
                ..pre
            }
            &&& post.files@ == pre.files@.push(f)
            &&& post.status_text@ == scanning_text(post.files@.len() as int)
            &&& post.scan_progress == post.files@.len() % 100
            &&& fx.len() == 0
        },
        ScannerMessageWrapper::Completed(total) => {
            &&& post == AppState {
                scanning: false,
                scan_progress: 100,
                status_text: post.status_text,
                ..pre
            }
            &&& post.status_text@ == scan_complete_text(total as int)
            &&& match pre.current_scan_id {
                Some(id) => {
                    &&& fx.len() == 2
                    &&& fx[0] matches Effect::UpdateScanStatus { scan_id, status }
                        && scan_id@ == id@ && status is Completed
                    &&& fx[1] matches Effect::UpdateScanTotals { scan_id, total_files, cleaned_files }
                        && scan_id@ == id@ && total_files == total && cleaned_files == 0
                },
                None => fx.len() == 0,
            }
        },
        ScannerMessageWrapper::Error(e) => {
            &&& post == AppState { scanning: false, status_text: post.status_text, ..pre }
            &&& if e@ == "Scan cancelled"@ {
                post.status_text == pre.status_text
            } else {
                post.status_text@ == "Scan error: "@ + e@
            }
            &&& fx.len() == 0
        },
    }
}

/// The state after a look at the scanner's channel: a report is saved (a
/// file) and dispatched; a closed channel is dropped and the scan marked
/// finished.
pub open spec fn scan_channel_polled(
    pre: AppState,
    post: AppState,
    fx: Seq<Effect>,
    p: Poll<ScannerMessage>,
) -> bool {
    &&& post == pre
    &&& match p {
        Poll::Received(ScannerMessage::FoundFile(f)) => fx == seq![
            Effect::SaveFile(f),
            Effect::Dispatch(Message::ScanProgress(ScannerMessageWrapper::FoundFile(f))),
        ],
        Poll::Received(ScannerMessage::Completed(c)) => fx == seq![
            Effect::Dispatch(Message::ScanProgress(ScannerMessageWrapper::Completed(c))),
        ],
        Poll::Received(ScannerMessage::Error(e)) => fx == seq![
            Effect::Dispatch(Message::ScanProgress(ScannerMessageWrapper::Error(e))),
        ],
        Poll::Empty => fx.len() == 0,
        Poll::Disconnected => fx == seq![Effect::CloseScanChannel, Effect::Dispatch(Message::ScanFinished)],
    }
}

/// The status a cleaning report gives its file.
pub open spec fn reported_file_status(r: CleanResult) -> FileStatusView {
    if r.success {
        FileStatusView::Cleaned
    } else {
        FileStatusView::Error(
            match r.error_msg {
                Some(m) => m@,
                None => Seq::<char>::empty(),
            },
        )
    }
}

/// `post` is `pre` with the status of the first file whose id is `id` set
/// to `st`; where no file has that id, `post` is `pre`.
pub open spec fn status_set_first(
    pre: Seq<FileRecord>,
    post: Seq<FileRecord>,
    id: Seq<char>,
    st: FileStatusView,
) -> bool {
    if exists|k: int| 0 <= k < pre.len() && #[trigger] pre[k].id@ == id {
        exists|k: int|
            0 <= k < pre.len() && #[trigger] pre[k].id@ == id
            && (forall|j: int| 0 <= j < k ==> pre[j].id@ != id)
            && post == pre.update(k, post[k])
            && post[k]@ == (FileRecordView { status: st, ..pre[k]@ })
    } else {
        post == pre
    }
}

/// The state after a look at the cleaning worker's channel. A report on
/// one file sets that file's status, records it, and moves the progress
/// on; the final report (empty file id) ends cleaning and records the
/// totals; a closed channel ends cleaning.
pub open spec fn clean_channel_polled(
    pre: AppState,
    post: AppState,
    fx: Seq<Effect>,
    p: Poll<CleanResult>,
) -> bool {
    match p {
        Poll::Received(r) => if r.file_id@.len() == 0 {
            &&& post == AppState {
                cleaning: false,
                clean_progress: CleanProgress::Complete,
                status_text: post.status_text,
                ..pre
            }
            &&& post.status_text@ == clean_complete_text(r.total_cleaned as int, file_count(pre) as int)
            &&& match pre.current_scan_id {
                Some(id) => {
                    &&& fx.len() == 2
                    &&& fx[0] is CloseCleanChannel
                    &&& fx[1] matches Effect::UpdateScanTotals { scan_id, total_files, cleaned_files }
                        && scan_id@ == id@ && total_files == file_count(pre)
                        && cleaned_files == r.total_cleaned
                },
                None => fx == seq![Effect::CloseCleanChannel],
            }
        } else {
            let total = file_count(pre);
            let done = total - r.total_remaining;
            &&& post == AppState {
                files: post.files,
                clean_progress: CleanProgress::Part { done: done as i32, of: total },
                status_text: post.status_text,
                ..pre
            }
            &&& status_set_first(pre.files@, post.files@, r.file_id@, reported_file_status(r))
            &&& post.status_text@ == cleaning_text(done, total as int)
            &&& fx.len() == 1
            &&& fx[0] matches Effect::UpdateFileStatus { file_id, file_status }
                && file_id@ == r.file_id@ && file_status@ == reported_file_status(r)
        },
        Poll::Empty => post == pre && fx.len() == 0,
        Poll::Disconnected => post == (AppState { cleaning: false, ..pre })
            && fx == seq![Effect::CloseCleanChannel],
    }
}

/// What a message does to the state, and the effects it asks for.
pub open spec fn updated(pre: AppState, post: AppState, fx: Seq<Effect>, msg: Message) -> bool {
    match msg {
        Message::ScannerPage(m) => match m {
            ScannerPageMessage::SelectDirectory => picker_requested(pre, post, fx),
            ScannerPageMessage::CancelScan => after_cancel(pre, post, fx),
            ScannerPageMessage::PathInputChanged(v) => post == (AppState { path_input: v, ..pre })
                && fx.len() == 0,
            ScannerPageMessage::ScanPath => {
                let path = trimmed_text(pre.path_input@);
                if path.len() == 0 {
                    picker_requested(pre, post, fx)
                } else {
                    folder_chosen(pre, post, fx, path, false)
                }
            },
            ScannerPageMessage::CleanMetadata => clean_requested(pre, post, fx),
            ScannerPageMessage::ExportReport => post == pre && fx.len() == 1
                && (fx[0] matches Effect::ExportReport(files) && files@ == pre.files@),
            ScannerPageMessage::FileList(FileListMessage::SelectFile(id)) => post == (AppState {
                selected_file_id: Some(id),
                ..pre
            }) && fx.len() == 0,
            ScannerPageMessage::Settings(s) => post == (AppState {
                preferences: preferences_after(pre.preferences, s),
                ..pre
            }) && fx == seq![Effect::SavePreferences(post.preferences)],
        },
        Message::HistoryPage(m) => match m {
            HistoryPageMessage::LoadHistory => post == pre
                && fx == seq![Effect::LoadHistory],
            HistoryPageMessage::ViewScan(id) => post == pre && fx == seq![Effect::LoadScanFiles(id)],
        },
        Message::SwitchPage(p) => post == (AppState { current_page: p, ..pre }) && fx == if p
            == Page::History {
            seq![Effect::LoadHistory]
        } else {
            Seq::<Effect>::empty()
        },
        Message::FileDropped(path) => folder_chosen(pre, post, fx, path@, false),
        Message::ScanProgress(w) => scan_reported(pre, post, fx, w),
        Message::ScanFinished => post == (AppState { scanning: false, ..pre }) && fx.len() == 0,
        Message::ScanTick => post == pre && fx == seq![Effect::PollScanner],
        Message::CleanTick => post == pre && fx == seq![Effect::PollCleaner],
        Message::ExportComplete(m) => fx.len() == 0 && if m@.len() == 0 {
            post == pre
        } else {
            post == (AppState { status_text: m, ..pre })
        },
        Message::DirectorySelected(choice) => match choice {
            Some(path) => folder_chosen(pre, post, fx, path@, true),
            None => post == pre && fx.len() == 0,
        },
        Message::CancelScan => after_cancel(pre, post, fx),
    }
}

} // verus!

//! What the interface's operations are for, stated over their inputs and
//! results: which files cleaning works on, which depth a scan walks,
//! what a cleaning report records, what an export holds, and what a
//! settings change touches.
use vstd::prelude::*;
use crate::app::{AppState, Effect, Poll};
use crate::messages::{CleanResult, Message, ScannerPageMessage, SettingsMessage};
use crate::models::{FileRecord, FileStatusView, UserPreferences};
use crate::transitions::{
    clean_channel_polled, clean_requested, clean_start_text, preferences_after, scan_started,
    still_scanned, updated,
};

verus! {

/// `out` is the files of `src` whose status is `Scanned`, in their order:
/// `idx` gives, for each file of `out`, its strictly increasing position
/// in `src`; each such file is `Scanned`, and every `Scanned` file of
/// `src` is picked.
pub open spec fn picks_scanned(idx: Seq<int>, out: Seq<FileRecord>, src: Seq<FileRecord>) -> bool {
    &&& idx.len() == out.len()
    &&& forall|j: int| 0 <= j < out.len() ==> 0 <= #[trigger] idx[j] < src.len() && out[j] == src[idx[j]]
    &&& forall|j: int, k: int| 0 <= j < k < out.len() ==> #[trigger] idx[j] < #[trigger] idx[k]
    &&& forall|j: int| 0 <= j < out.len() ==> (#[trigger] out[j]).status is Scanned
    &&& forall|i: int|
        0 <= i < src.len() && (#[trigger] src[i]).status is Scanned ==> exists|j: int|
            0 <= j < out.len() && #[trigger] idx[j] == i
}

/// Whether some file of the list still has status `Scanned`.
pub open spec fn has_scanned(files: Seq<FileRecord>) -> bool {
    exists|i: int| 0 <= i < files.len() && (#[trigger] files[i]).status is Scanned
}

proof fn scanned_positions(src: Seq<FileRecord>) -> (idx: Seq<int>)
    ensures
        picks_scanned(idx, src.filter(still_scanned()), src),
    decreases src.len(),
{
    reveal(Seq::filter);
    if src.len() == 0 {
        Seq::empty()
    } else {
        let init = src.drop_last();
        let i0 = scanned_positions(init);
        let out0 = init.filter(still_scanned());
        let last = src.last();
        assert(forall|i: int| 0 <= i < init.len() ==> init[i] == src[i]);
        if last.status is Scanned {
            let idx = i0.push(src.len() - 1);
            let out = out0.push(last);
            assert(src.filter(still_scanned()) == out);
            assert forall|i: int|
                0 <= i < src.len() && (#[trigger] src[i]).status is Scanned implies exists|j: int|
                0 <= j < out.len() && #[trigger] idx[j] == i by {
                if i < src.len() - 1 {
                    assert(init[i] == src[i]);
                    let j = choose|j: int| 0 <= j < out0.len() && #[trigger] i0[j] == i;
                    assert(idx[j] == i);
                } else {
                    assert(idx[out.len() - 1] == i);
                }
            }
            assert forall|j: int| 0 <= j < out.len() implies 0 <= #[trigger] idx[j] < src.len()
                && out[j] == src[idx[j]] by {
                if j < out0.len() {
                    assert(idx[j] == i0[j]);
                    assert(out[j] == out0[j]);
                }
            }
            assert forall|j: int| 0 <= j < out.len() implies (#[trigger] out[j]).status is Scanned by {
                if j < out0.len() {
                    assert(out[j] == out0[j]);
                }
            }
            assert forall|j: int, k: int| 0 <= j < k < out.len() implies #[trigger] idx[j]
                < #[trigger] idx[k] by {
                assert(idx[j] == i0[j]);
                if k < out0.len() {
                    assert(idx[k] == i0[k]);
                }
            }
            idx
        } else {
            assert(src.filter(still_scanned()) == out0);
            assert forall|i: int|
                0 <= i < src.len() && (#[trigger] src[i]).status is Scanned implies exists|j: int|
                0 <= j < out0.len() && #[trigger] i0[j] == i by {
                assert(init[i] == src[i]);
            }
            i0
        }
    }
}

/// Cleaning works on exactly the files still `Scanned`: when ExifTool is
/// available and some file of the list is `Scanned`, the cleaning worker
/// is started on those files, in list order, whatever their paths or
/// types, and on no other file, with the backup preference, and the status
/// line counts them; otherwise nothing is started.
pub proof fn clean_takes_every_scanned_file(pre: AppState, post: AppState, fx: Seq<Effect>)
    requires
        clean_requested(pre, post, fx),
    ensures
        pre.exiftool_available && has_scanned(pre.files@) ==> {
            &&& fx.len() == 1
            &&& fx[0] is StartCleaner
            &&& fx[0]->backup == pre.preferences.backup_enabled
            &&& exists|idx: Seq<int>| picks_scanned(idx, fx[0]->files@, pre.files@)
            &&& post.status_text@ == clean_start_text((fx[0]->files@.len() as i32) as int)
            &&& post.cleaning
        },
        !(pre.exiftool_available && has_scanned(pre.files@)) ==> fx.len() == 0 && !(post.cleaning
            && !pre.cleaning),
{
    let todo = pre.files@.filter(still_scanned());
    let idx = scanned_positions(pre.files@);
    if has_scanned(pre.files@) {
        let i = choose|i: int| 0 <= i < pre.files@.len() && (#[trigger] pre.files@[i]).status is Scanned;
        let j = choose|j: int| 0 <= j < todo.len() && #[trigger] idx[j] == i;
        assert(todo.len() > 0);
    } else {
        if todo.len() > 0 {
            assert(todo[0].status is Scanned);
            assert(pre.files@[idx[0]] == todo[0]);
        }
    }
}

/// A scan walks at the depth the user chose: the scanner is started with
/// `recursive` equal to the recursive preference, the same value the
/// saved scan record carries.
pub proof fn scan_uses_recursive_preference(
    pre: AppState,
    post: AppState,
    fx: Seq<Effect>,
    path: Seq<char>,
)
    requires
        scan_started(pre, post, fx, path),
    ensures
        fx.len() == 2,
        fx[0] is SaveScan,
        fx[1] is StartScanner,
        fx[1]->recursive == pre.preferences.recursive_default,
        fx[0]->SaveScan_0.recursive == fx[1]->recursive,
        fx[1]->root_path@ == path,
{
}

/// A dropped folder is scanned at the depth the user chose, as the
/// preferences stood before the drop.
pub proof fn dropped_folder_uses_recursive_preference(
    pre: AppState,
    post: AppState,
    fx: Seq<Effect>,
    path: String,
)
    requires
        updated(pre, post, fx, Message::FileDropped(path)),
    ensures
        fx.len() == 3,
        fx[2] is StartScanner,
        fx[2]->recursive == pre.preferences.recursive_default,
        fx[2]->root_path@ == path@,
        post.preferences.recursive_default == pre.preferences.recursive_default,
{
    let sub = fx.subrange(1, 3);
    assert(sub[1] == fx[2]);
}

/// Whatever message starts a scan (a chosen, dropped or typed folder),
/// the scanner is started with the recursive preference as it stood
/// before the message, and every scan record saved with it carries the
/// same value.
pub proof fn every_scan_uses_recursive_preference(
    pre: AppState,
    post: AppState,
    fx: Seq<Effect>,
    msg: Message,
)
    requires
        updated(pre, post, fx, msg),
    ensures
        forall|j: int|
            0 <= j < fx.len() && (#[trigger] fx[j]) is StartScanner ==> fx[j]->recursive
                == pre.preferences.recursive_default,
        forall|j: int|
            0 <= j < fx.len() && (#[trigger] fx[j]) is SaveScan ==> fx[j]->SaveScan_0.recursive
                == pre.preferences.recursive_default,
{
    let chosen = match msg {
        Message::FileDropped(_) => true,
        Message::DirectorySelected(Some(_)) => true,
        Message::ScannerPage(ScannerPageMessage::ScanPath) => fx.len() == 3,
        _ => false,
    };
    if chosen {
        let sub = fx.subrange(1, 3);
        assert(sub[0] == fx[1]);
        assert(sub[1] == fx[2]);
    }
}

/// The status recorded for a file report is the status the report gives
/// the file: `Cleaned` exactly when it succeeded, otherwise `Error` with
/// the report's message (empty when it has none).
pub proof fn clean_report_records_its_outcome(
    pre: AppState,
    post: AppState,
    fx: Seq<Effect>,
    r: CleanResult,
)
    requires
        clean_channel_polled(pre, post, fx, Poll::Received(r)),
        r.file_id@.len() > 0,
    ensures
        fx.len() == 1,
        fx[0] is UpdateFileStatus,
        fx[0]->file_id@ == r.file_id@,
        r.success ==> fx[0]->file_status@ == FileStatusView::Cleaned,
        !r.success ==> fx[0]->file_status@ == FileStatusView::Error(
            match r.error_msg {
                Some(m) => m@,
                None => Seq::<char>::empty(),
            },
        ),
{
}

/// The file of the list that a report names (the first with its id) gets
/// the same status that is recorded for it; the list keeps its length.
pub proof fn clean_report_list_matches_record(
    pre: AppState,
    post: AppState,
    fx: Seq<Effect>,
    r: CleanResult,
    k: int,
)
    requires
        clean_channel_polled(pre, post, fx, Poll::Received(r)),
        r.file_id@.len() > 0,
        0 <= k < pre.files@.len(),
        pre.files@[k].id@ == r.file_id@,
        forall|j: int| 0 <= j < k ==> pre.files@[j].id@ != r.file_id@,
    ensures
        post.files@.len() == pre.files@.len(),
        fx[0] is UpdateFileStatus,
        post.files@[k]@.status == fx[0]->file_status@,
{
    let w = choose|w: int|
        0 <= w < pre.files@.len() && #[trigger] pre.files@[w].id@ == r.file_id@ && (forall|j: int|
            0 <= j < w ==> pre.files@[j].id@ != r.file_id@) && post.files@ == pre.files@.update(
            w,
            post.files@[w],
        ) && post.files@[w]@ == (crate::models::FileRecordView {
            status: crate::transitions::reported_file_status(r),
            ..pre.files@[w]@
        });
    if w < k {
        assert(pre.files@[w].id@ != r.file_id@);
    } else if k < w {
        assert(pre.files@[k].id@ != r.file_id@);
    }
}

/// An export writes the whole current list: the report holds the same
/// files in the same order, whatever their statuses, and the state is
/// left as it was.
pub proof fn export_holds_every_file(pre: AppState, post: AppState, fx: Seq<Effect>)
    requires
        updated(pre, post, fx, Message::ScannerPage(ScannerPageMessage::ExportReport)),
    ensures
        post == pre,
        fx.len() == 1,
        fx[0] is ExportReport,
        fx[0]->ExportReport_0@.len() == pre.files@.len(),
        forall|i: int| 0 <= i < pre.files@.len() ==> fx[0]->ExportReport_0@[i] == pre.files@[i],
{
}

/// A settings change touches only the setting it names: every other
/// preference keeps its value.
pub proof fn setting_change_touches_only_its_setting(p: UserPreferences, m: SettingsMessage)
    ensures
        ({
            let q = preferences_after(p, m);
            match m {
                SettingsMessage::RecursiveToggled(v) => q.recursive_default == v && q.backup_enabled
                    == p.backup_enabled && q.theme == p.theme && q.last_scan_path == p.last_scan_path,
                SettingsMessage::BackupToggled(v) => q.backup_enabled == v && q.recursive_default
                    == p.recursive_default && q.theme == p.theme && q.last_scan_path
                    == p.last_scan_path,
                SettingsMessage::ThemeSelected(t) => q.theme == t && q.recursive_default
                    == p.recursive_default && q.backup_enabled == p.backup_enabled
                    && q.last_scan_path == p.last_scan_path,
            }
        }),
{
}

/// The same, for a settings message handled by the interface: the state
/// changes only in that one preference, and the new preferences are
/// saved.
pub proof fn settings_message_touches_only_its_setting(
    pre: AppState,
    post: AppState,
    fx: Seq<Effect>,
    m: SettingsMessage,
)
    requires
        updated(pre, post, fx, Message::ScannerPage(ScannerPageMessage::Settings(m))),
    ensures
        post.files == pre.files,
        post.status_text == pre.status_text,
        post.preferences.last_scan_path == pre.preferences.last_scan_path,
        m is RecursiveToggled ==> post.preferences.backup_enabled == pre.preferences.backup_enabled
            && post.preferences.theme == pre.preferences.theme,
        m is BackupToggled ==> post.preferences.recursive_default
            == pre.preferences.recursive_default && post.preferences.theme
            == pre.preferences.theme,
        m is ThemeSelected ==> post.preferences.recursive_default
            == pre.preferences.recursive_default && post.preferences.backup_enabled
            == pre.preferences.backup_enabled,
        fx.len() == 1,
        fx[0] is SavePreferences,
        fx[0]->SavePreferences_0 == post.preferences,
{
}

} // verus!

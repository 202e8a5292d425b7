//! The cleaning worker as a state machine. For each file in turn it asks
//! for a copy to `<path>.original` when backups are kept, then for the
//! ExifTool run that strips the file (whatever became of the copy), then
//! for the report to be sent; after the last file, or once the receiver is
//! gone, it asks for the final report. Copying, running ExifTool and
//! sending are the caller's part: it does what [`CleanJob::step`] asks and
//! feeds back what came of it.
use vstd::prelude::*;
use crate::exiftool::{clean_args_spec, ExifTool};
use crate::messages::CleanResult;
use crate::models::FileRecord;

verus! {

/// Where a cleaning run stands.
#[derive(Debug, Clone, Copy, PartialEq, Eq)]
pub enum CleanPhase {
    /// Not started.
    Ready,
    /// Waiting for the copy of the current file.
    BackingUp,
    /// Waiting for the ExifTool run on the current file.
    Cleaning,
    /// Waiting to hear whether the current file's report was delivered.
    Reporting,
    /// Ended.
    Done,
}

/// What came of the last thing the run asked for.
#[derive(Debug)]
pub enum CleanEvent {
    /// Begin the run.
    Start,
    /// The copy was attempted; a failed copy is only logged.
    BackedUp,
    /// The ExifTool run succeeded, or failed with this error text.
    Cleaned(Result<(), String>),
    /// The report was taken by the receiver.
    Delivered,
    /// The receiver is gone.
    Undeliverable,
}

/// What the run asks for next.
#[derive(Debug)]
pub enum CleanAction {
    /// Copy the file at `from` to `to`.
    Backup { from: String, to: String },
    /// Run ExifTool with these arguments.
    Clean { args: Vec<String> },
    /// Send this report, then say whether it was delivered.
    Send(CleanResult),
    /// Send this final report; the run has ended.
    Finish(CleanResult),
}

/// The kinds of events, as the rules see them.
pub enum CleanEventKind {
    Start,
    BackedUp,
    CleanedOk,
    CleanedErr,
    Delivered,
    Undeliverable,
}

/// The kind of an event.
pub open spec fn clean_event_kind(e: CleanEvent) -> CleanEventKind {
    match e {
        CleanEvent::Start => CleanEventKind::Start,
        CleanEvent::BackedUp => CleanEventKind::BackedUp,
        CleanEvent::Cleaned(Ok(())) => CleanEventKind::CleanedOk,
        CleanEvent::Cleaned(Err(_)) => CleanEventKind::CleanedErr,
        CleanEvent::Delivered => CleanEventKind::Delivered,
        CleanEvent::Undeliverable => CleanEventKind::Undeliverable,
    }
}

/// A run's state, as the rules see it: `taken` files have been taken up
/// (the current one is the last of them), `cleaned` of them were cleaned,
/// and `remaining` is what the reports give as not yet taken up.
pub struct CleanStateView {
    pub phase: CleanPhase,
    pub backup: bool,
    pub total: int,
    pub taken: int,
    pub cleaned: int,
    pub remaining: int,
}

/// A fresh run over `total` files.
pub open spec fn clean_start(total: int, backup: bool) -> CleanStateView {
    CleanStateView {
        phase: CleanPhase::Ready,
        backup,
        total,
        taken: 0,
        cleaned: 0,
        remaining: total,
    }
}

/// The events the run waits for in each phase.
pub open spec fn clean_accepts(phase: CleanPhase, k: CleanEventKind) -> bool {
    match phase {
        CleanPhase::Ready => k is Start,
        CleanPhase::BackingUp => k is BackedUp,
        CleanPhase::Cleaning => k is CleanedOk || k is CleanedErr,
        CleanPhase::Reporting => k is Delivered || k is Undeliverable,
        CleanPhase::Done => false,
    }
}

/// Takes up the next file (copy first when backups are kept), or ends the
/// run when every file has been taken up.
pub open spec fn take_up(s: CleanStateView) -> CleanStateView {
    if s.taken >= s.total {
        CleanStateView { phase: CleanPhase::Done, ..s }
    } else {
        CleanStateView {
            phase: if s.backup { CleanPhase::BackingUp } else { CleanPhase::Cleaning },
            taken: s.taken + 1,
            remaining: s.remaining - 1,
            ..s
        }
    }
}

/// The state after an accepted event.
pub open spec fn clean_next(s: CleanStateView, k: CleanEventKind) -> CleanStateView {
    match k {
        CleanEventKind::Start => take_up(s),
        CleanEventKind::BackedUp => CleanStateView { phase: CleanPhase::Cleaning, ..s },
        CleanEventKind::CleanedOk => CleanStateView {
            phase: CleanPhase::Reporting,
            cleaned: s.cleaned + 1,
            ..s
        },
        CleanEventKind::CleanedErr => CleanStateView { phase: CleanPhase::Reporting, ..s },
        CleanEventKind::Delivered => take_up(s),
        CleanEventKind::Undeliverable => CleanStateView { phase: CleanPhase::Done, ..s },
    }
}

/// The state after a run of events.
pub open spec fn clean_run(s: CleanStateView, ks: Seq<CleanEventKind>) -> CleanStateView
    decreases ks.len(),
{
    if ks.len() == 0 {
        s
    } else {
        clean_run(clean_next(s, ks[0]), ks.drop_first())
    }
}

/// Whether each event of a run is one the run waits for at that point.
pub open spec fn clean_run_accepted(s: CleanStateView, ks: Seq<CleanEventKind>) -> bool
    decreases ks.len(),
{
    ks.len() == 0 || (clean_accepts(s.phase, ks[0]) && clean_run_accepted(
        clean_next(s, ks[0]),
        ks.drop_first(),
    ))
}

/// How many ExifTool runs of a run of events succeeded.
pub open spec fn successes(ks: Seq<CleanEventKind>) -> int
    decreases ks.len(),
{
    if ks.len() == 0 {
        0
    } else {
        (if ks[0] is CleanedOk { 1int } else { 0int }) + successes(ks.drop_first())
    }
}

/// The counts a state keeps consistent: no more cleaned than taken up, no
/// more taken up than there are files, and the remaining count is the
/// files not yet taken up.
pub open spec fn clean_counts_hold(s: CleanStateView) -> bool {
    &&& 0 <= s.cleaned <= s.taken <= s.total
    &&& s.remaining == s.total - s.taken
}

/// The counts of a run: after any run of events from a fresh run over
/// `total` files, the cleaned count is the number of ExifTool runs that
/// succeeded, it never exceeds the files taken up, and the remaining count
/// is the files not yet taken up.
pub proof fn clean_counts_successes(total: int, backup: bool, ks: Seq<CleanEventKind>)
    requires
        total >= 0,
        clean_run_accepted(clean_start(total, backup), ks),
    ensures
        clean_run(clean_start(total, backup), ks).cleaned == successes(ks),
        clean_counts_hold(clean_run(clean_start(total, backup), ks)),
{
    clean_counts_from(clean_start(total, backup), ks);
}

proof fn clean_counts_from(s: CleanStateView, ks: Seq<CleanEventKind>)
    requires
        clean_counts_hold(s),
        s.phase is Reporting ==> s.cleaned <= s.taken,
        s.phase is Cleaning ==> s.cleaned < s.taken,
        s.phase is BackingUp ==> s.cleaned < s.taken,
        clean_run_accepted(s, ks),
    ensures
        clean_run(s, ks).cleaned == s.cleaned + successes(ks),
        clean_counts_hold(clean_run(s, ks)),
    decreases ks.len(),
{
    if ks.len() > 0 {
        clean_counts_from(clean_next(s, ks[0]), ks.drop_first());
    }
}

/// The final report with `cleaned` files cleaned: an empty file id,
/// success, no error and nothing remaining.
pub open spec fn final_report(r: CleanResult, cleaned: int) -> bool {
    &&& r.file_id@.len() == 0
    &&& r.success
    &&& r.error_msg is None
    &&& r.total_cleaned == cleaned
    &&& r.total_remaining == 0
}

/// Whether phases that work on a file have one.
pub open spec fn working(phase: CleanPhase) -> bool {
    phase is BackingUp || phase is Cleaning || phase is Reporting
}

/// What a run asks for, by the index of the file concerned.
pub enum CleanAsk {
    Backup(int),
    Clean(int),
    Send(int),
    Finish,
}

/// What an accepted event makes the run ask for.
pub open spec fn clean_asked(s: CleanStateView, k: CleanEventKind) -> CleanAsk {
    match k {
        CleanEventKind::Start | CleanEventKind::Delivered => if s.taken >= s.total {
            CleanAsk::Finish
        } else if s.backup {
            CleanAsk::Backup(s.taken)
        } else {
            CleanAsk::Clean(s.taken)
        },
        CleanEventKind::BackedUp => CleanAsk::Clean(s.taken - 1),
        CleanEventKind::CleanedOk | CleanEventKind::CleanedErr => CleanAsk::Send(s.taken - 1),
        CleanEventKind::Undeliverable => CleanAsk::Finish,
    }
}

/// What a run of events makes the run ask for, in order.
pub open spec fn clean_requests(s: CleanStateView, ks: Seq<CleanEventKind>) -> Seq<CleanAsk>
    decreases ks.len(),
{
    if ks.len() == 0 {
        Seq::empty()
    } else {
        seq![clean_asked(s, ks[0])] + clean_requests(clean_next(s, ks[0]), ks.drop_first())
    }
}

/// Where a run's requests stand while file `i` of `n` is next or current.
pub enum CleanStage {
    /// File `i` is next to be taken up; `after_report` once a report was
    /// sent.
    Take { after_report: bool },
    /// File `i` was copied.
    Copied,
    /// File `i` was stripped.
    Stripped,
}

/// Whether requests follow the order of a cleaning run over `n` files
/// from file `i` at stage `st`: for each file in turn, its copy (exactly
/// when backups are kept), its ExifTool run, its report; and a final
/// report, last of all, once every file is done or after a report.
pub open spec fn clean_order(ms: Seq<CleanAsk>, i: int, n: int, backup: bool, st: CleanStage) -> bool
    decreases ms.len(),
{
    if ms.len() == 0 {
        true
    } else {
        match st {
            CleanStage::Take { after_report } => {
                ||| ms[0] is Finish && ms.len() == 1 && (after_report || i >= n)
                ||| i < n && backup && ms[0] == CleanAsk::Backup(i) && clean_order(
                    ms.drop_first(),
                    i,
                    n,
                    backup,
                    CleanStage::Copied,
                )
                ||| i < n && !backup && ms[0] == CleanAsk::Clean(i) && clean_order(
                    ms.drop_first(),
                    i,
                    n,
                    backup,
                    CleanStage::Stripped,
                )
            },
            CleanStage::Copied => ms[0] == CleanAsk::Clean(i) && clean_order(
                ms.drop_first(),
                i,
                n,
                backup,
                CleanStage::Stripped,
            ),
            CleanStage::Stripped => ms[0] == CleanAsk::Send(i) && clean_order(
                ms.drop_first(),
                i + 1,
                n,
                backup,
                CleanStage::Take { after_report: true },
            ),
        }
    }
}

/// The order of a cleaning run: whatever comes of each request, a run over
/// `total` files asks, file after file, for the copy (when backups are
/// kept), then the ExifTool run, then the report, and ends with one final
/// report, after which it asks for nothing.
pub proof fn clean_order_of_runs(total: int, backup: bool, ks: Seq<CleanEventKind>)
    requires
        total >= 0,
        clean_run_accepted(clean_start(total, backup), ks),
    ensures
        clean_order(
            clean_requests(clean_start(total, backup), ks),
            0,
            total,
            backup,
            CleanStage::Take { after_report: false },
        ),
{
    clean_order_from(clean_start(total, backup), ks);
}

/// The stage of the order that a state stands at.
pub open spec fn stage_of(s: CleanStateView) -> CleanStage {
    match s.phase {
        CleanPhase::BackingUp => CleanStage::Copied,
        CleanPhase::Cleaning => CleanStage::Stripped,
        CleanPhase::Reporting => CleanStage::Take { after_report: true },
        _ => CleanStage::Take { after_report: false },
    }
}

/// The file of the order that a state stands at.
pub open spec fn file_of(s: CleanStateView) -> int {
    match s.phase {
        CleanPhase::BackingUp | CleanPhase::Cleaning => s.taken - 1,
        _ => s.taken,
    }
}

proof fn clean_order_from(s: CleanStateView, ks: Seq<CleanEventKind>)
    requires
        0 <= s.taken <= s.total,
        s.phase is Ready ==> s.taken == 0,
        (s.phase is BackingUp || s.phase is Cleaning || s.phase is Reporting) ==> s.taken >= 1,
        s.phase is BackingUp ==> s.backup,
        clean_run_accepted(s, ks),
    ensures
        clean_order(clean_requests(s, ks), file_of(s), s.total, s.backup, stage_of(s)),
    decreases ks.len(),
{
    if ks.len() > 0 {
        let k = ks[0];
        let next = clean_next(s, k);
        let rest = ks.drop_first();
        clean_order_from(next, rest);
        let ms = clean_requests(s, ks);
        assert(ms.drop_first() =~= clean_requests(next, rest));
        reveal_with_fuel(clean_run_accepted, 2);
        if next.phase is Done {
            assert(rest.len() == 0);
        }
    }
}

/// Whether an action is the request `m` about these files: the copy of
/// file `i` to its backup, the ExifTool run on it, its report, or the
/// final report.
pub open spec fn asks(a: CleanAction, m: CleanAsk, files: Seq<FileRecord>, backup: bool) -> bool {
    match m {
        CleanAsk::Backup(i) => a matches CleanAction::Backup { from, to } && from@ == files[i].path@
            && to@ == files[i].path@ + ".original"@,
        CleanAsk::Clean(i) => a matches CleanAction::Clean { args } && args.deep_view()
            == clean_args_spec(files[i].path@, backup),
        CleanAsk::Send(i) => a matches CleanAction::Send(r) && r.file_id@ == files[i].id@,
        CleanAsk::Finish => a is Finish,
    }
}

/// A cleaning run over a list of files.
#[derive(Debug)]
pub struct CleanJob {
    /// The files, in the order they are cleaned.
    pub files: Vec<FileRecord>,
    /// Whether a copy of each file is kept before it is cleaned.
    pub backup: bool,
    pub phase: CleanPhase,
    /// Files taken up so far; the current one is the last of them.
    pub taken: usize,
    /// Files cleaned so far.
    pub cleaned: i32,
    /// Files not yet taken up.
    pub remaining: i32,
}

impl CleanJob {
    /// The rules' view of this run.
    pub open spec fn state(&self) -> CleanStateView {
        CleanStateView {
            phase: self.phase,
            backup: self.backup,
            total: self.files.len() as int,
            taken: self.taken as int,
            cleaned: self.cleaned as int,
            remaining: self.remaining as int,
        }
    }

    /// The run's counts agree with its files and phase.
    pub open spec fn wf(&self) -> bool {
        &&& self.files.len() <= i32::MAX
        &&& clean_counts_hold(self.state())
        &&& self.phase is Ready ==> self.taken == 0
        &&& working(self.phase) ==> self.taken >= 1
        &&& (self.phase is BackingUp || self.phase is Cleaning) ==> self.cleaned < self.taken
        &&& self.phase is BackingUp ==> self.backup
    }

    /// The file the run is working on.
    pub open spec fn current(&self) -> FileRecord {
        self.files@[self.taken - 1]
    }

    /// A run over `files`, keeping a copy of each when `backup` is set.
    pub fn new(files: Vec<FileRecord>, backup: bool) -> (j: CleanJob)
        requires
            files.len() <= i32::MAX,
        ensures
            j.wf(),
            j.files@ == files@,
            j.state() == clean_start(files.len() as int, backup),
    {
        let total = files.len() as i32;
        CleanJob { files, backup, phase: CleanPhase::Ready, taken: 0, cleaned: 0, remaining: total }
    }

    /// Takes up the next file, or ends the run after the last one.
    fn take_up_next(&mut self) -> (action: CleanAction)
        requires
            old(self).wf(),
            old(self).phase is Ready || old(self).phase is Reporting,
        ensures
            final(self).wf(),
            final(self).files@ == old(self).files@,
            final(self).state() == take_up(old(self).state()),
            old(self).taken < old(self).files.len() ==> {
                let path = old(self).files@[old(self).taken as int].path@;
                if old(self).backup {
                    action matches CleanAction::Backup { from, to } && from@ == path && to@ == path
                        + ".original"@
                } else {
                    action matches CleanAction::Clean { args } && args.deep_view()
                        == clean_args_spec(path, false)
                }
            },
            old(self).taken >= old(self).files.len() ==> (action matches CleanAction::Finish(r)
                && final_report(r, old(self).cleaned as int)),
    {
        if self.taken >= self.files.len() {
            self.phase = CleanPhase::Done;
            return CleanAction::Finish(CleanResult {
                file_id: String::new(),
                success: true,
                error_msg: None,
                total_cleaned: self.cleaned,
                total_remaining: 0,
            });
        }
        let path = self.files[self.taken].path.clone();
        self.taken = self.taken + 1;
        self.remaining = self.remaining - 1;
        if self.backup {
            self.phase = CleanPhase::BackingUp;
            let to = ExifTool::backup_path(path.as_str());
            CleanAction::Backup { from: path, to }
        } else {
            self.phase = CleanPhase::Cleaning;
            CleanAction::Clean { args: ExifTool::clean_args(path.as_str(), false) }
        }
    }

    /// Applies what came of the last request and says what to do next.
    ///
    /// Each file is taken up in order: with backups kept, a copy to
    /// `<path>.original` comes first; the ExifTool run follows whatever
    /// became of the copy (it overwrites the original only when no backup
    /// is kept). Its outcome is counted and reported with the file's id,
    /// the error text of a failure, the files cleaned so far and the files
    /// not yet taken up. After a delivered report the next file is taken
    /// up; after the last one, or when the receiver is gone, the run ends
    /// with the final report of the files cleaned.
    pub fn step(&mut self, event: CleanEvent) -> (action: CleanAction)
        requires
            old(self).wf(),
            clean_accepts(old(self).phase, clean_event_kind(event)),
        ensures
            final(self).wf(),
            final(self).files@ == old(self).files@,
            final(self).state() == clean_next(old(self).state(), clean_event_kind(event)),
            asks(
                action,
                clean_asked(old(self).state(), clean_event_kind(event)),
                old(self).files@,
                old(self).backup,
            ),
            match event {
                CleanEvent::Start | CleanEvent::Delivered => {
                    &&& old(self).taken < old(self).files.len() ==> {
                        let path = old(self).files@[old(self).taken as int].path@;
                        if old(self).backup {
                            action matches CleanAction::Backup { from, to } && from@ == path
                                && to@ == path + ".original"@
                        } else {
                            action matches CleanAction::Clean { args } && args.deep_view()
                                == clean_args_spec(path, false)
                        }
                    }
                    &&& old(self).taken >= old(self).files.len() ==> (action matches CleanAction::Finish(r)
                        && final_report(r, old(self).cleaned as int))
                },
                CleanEvent::BackedUp => action matches CleanAction::Clean { args }
                    && args.deep_view() == clean_args_spec(old(self).current().path@, true),
                CleanEvent::Cleaned(outcome) => action matches CleanAction::Send(r)
                    && r.file_id@ == old(self).current().id@
                    && r.success == outcome is Ok
                    && match outcome {
                        Ok(()) => r.error_msg is None,
                        Err(e) => r.error_msg == Some(e),
                    }
                    && r.total_cleaned == final(self).cleaned
                    && r.total_remaining == final(self).remaining,
                CleanEvent::Undeliverable => action matches CleanAction::Finish(r)
                    && final_report(r, old(self).cleaned as int),
            },
    {
        match event {
            CleanEvent::Start => self.take_up_next(),
            CleanEvent::BackedUp => {
                self.phase = CleanPhase::Cleaning;
                let path = &self.files[self.taken - 1].path;
                CleanAction::Clean { args: ExifTool::clean_args(path.as_str(), true) }
            },
            CleanEvent::Cleaned(outcome) => {
                self.phase = CleanPhase::Reporting;
                let file_id = self.files[self.taken - 1].id.clone();
                let (success, error_msg) = match outcome {
                    Ok(()) => {
                        self.cleaned = self.cleaned + 1;
                        (true, None)
                    },
                    Err(e) => (false, Some(e)),
                };
                CleanAction::Send(CleanResult {
                    file_id,
                    success,
                    error_msg,
                    total_cleaned: self.cleaned,
                    total_remaining: self.remaining,
                })
            },
            CleanEvent::Delivered => self.take_up_next(),
            CleanEvent::Undeliverable => {
                self.phase = CleanPhase::Done;
                CleanAction::Finish(CleanResult {
                    file_id: String::new(),
                    success: true,
                    error_msg: None,
                    total_cleaned: self.cleaned,
                    total_remaining: 0,
                })
            },
        }
    }
}

} // verus!

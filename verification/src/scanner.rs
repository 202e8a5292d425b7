//! The directory scanner's rules: which files it reports, and the steps of
//! a walk from the first entry to the final message. Walking the directory
//! and sending messages is the caller's part: it feeds each outcome to
//! [`ScanWalk::step`] and carries out the action that comes back.
use vstd::prelude::*;
use crate::models::{FileRecord, FileStatus};
use crate::text::{lowercase, lowercase_of, same_text};

verus! {

/// The scanner.
pub struct Scanner;

/// What the scanner tells the user interface.
#[derive(Debug, Clone)]
pub enum ScannerMessage {
    FoundFile(FileRecord),
    /// The scan ended; the number of files found.
    Completed(i32),
    Error(String),
}

/// The extensions (already lowercased) of the files that can carry
/// metadata the tool strips.
pub open spec fn supported_extension(ext: Seq<char>) -> bool {
    ||| ext == "jpg"@
    ||| ext == "jpeg"@
    ||| ext == "png"@
    ||| ext == "gif"@
    ||| ext == "tiff"@
    ||| ext == "webp"@
    ||| ext == "pdf"@
    ||| ext == "docx"@
    ||| ext == "xlsx"@
    ||| ext == "pptx"@
    ||| ext == "mp3"@
    ||| ext == "wav"@
    ||| ext == "flac"@
    ||| ext == "mp4"@
    ||| ext == "mov"@
    ||| ext == "avi"@
    ||| ext == "mkv"@
}

/// A lowercase hexadecimal digit.
pub open spec fn is_lower_hex(c: char) -> bool {
    (48 <= (c as int) && (c as int) <= 57) || (97 <= (c as int) && (c as int) <= 102)
}

/// The hyphenated lowercase text of a random (version 4, RFC variant)
/// UUID: 36 characters, hyphens at 8, 13, 18 and 23, lowercase hex digits
/// elsewhere, the version digit `4` at 14 and a variant digit of `8`, `9`,
/// `a` or `b` at 19.
pub open spec fn uuid_v4_text(t: Seq<char>) -> bool {
    &&& t.len() == 36
    &&& forall|i: int|
        0 <= i < 36 ==> if i == 8 || i == 13 || i == 18 || i == 23 {
            #[trigger] t[i] == '-'
        } else {
            is_lower_hex(t[i])
        }
    &&& t[14] == '4'
    &&& (t[19] == '8' || t[19] == '9' || t[19] == 'a' || t[19] == 'b')
}

/// Calls `uuid::Uuid::new_v4` and renders the id with `to_string`.
/// Trusted: `new_v4` masks random bits to set version 4 and the RFC
/// variant, and `Display` writes the hyphenated lowercase form
/// (`format_hyphenated`), so the text has the layout of
/// [`uuid_v4_text`]; which id comes out is random and not stated.
#[verifier::external_body]
pub(crate) fn new_record_id() -> (id: String)
    ensures
        uuid_v4_text(id@),
{
    uuid::Uuid::new_v4().to_string()
}

impl Scanner {
    /// Whether files with this extension are scanned. The check is exact:
    /// the caller lowercases the extension first.
    pub fn is_supported_extension(ext: &str) -> (r: bool)
        ensures
            r == supported_extension(ext@),
    {
        same_text(ext, "jpg") || same_text(ext, "jpeg") || same_text(ext, "png")
            || same_text(ext, "gif") || same_text(ext, "tiff") || same_text(ext, "webp")
            || same_text(ext, "pdf") || same_text(ext, "docx") || same_text(ext, "xlsx")
            || same_text(ext, "pptx") || same_text(ext, "mp3") || same_text(ext, "wav")
            || same_text(ext, "flac") || same_text(ext, "mp4") || same_text(ext, "mov")
            || same_text(ext, "avi") || same_text(ext, "mkv")
    }

    /// How deep the walk descends: without limit for a recursive scan, one
    /// level (the folder's own entries) otherwise.
    pub fn max_depth(recursive: bool) -> (d: usize)
        ensures
            d == if recursive { usize::MAX } else { 1 },
    {
        if recursive {
            usize::MAX
        } else {
            1
        }
    }
}

/// What the walk reports to the scan, one at a time.
#[derive(Debug)]
pub enum WalkEvent {
    /// The cancel flag was found raised before the next entry.
    Cancelled,
    /// The walker could not read an entry.
    Unreadable,
    /// The walker yielded an entry: whether it is a regular file, its path,
    /// and its extension as text, if it has one.
    Entry { is_file: bool, path: String, extension: Option<String> },
    /// The walker has no more entries.
    Exhausted,
    /// The receiver took the file message just sent.
    Delivered,
    /// The receiver is gone; the message just sent was not taken.
    Undeliverable,
}

/// What the scan asks its caller to do next.
#[derive(Debug)]
pub enum WalkAction {
    /// Fetch the next entry.
    Next,
    /// Send this message, then report whether it was delivered.
    Send(ScannerMessage),
    /// Send this message, if any, ignoring whether it is delivered, and end
    /// the scan.
    Stop(Option<ScannerMessage>),
}

/// Where a walk stands.
#[derive(Debug, Clone, Copy, PartialEq, Eq)]
pub enum WalkPhase {
    /// Waiting for the walker's next outcome.
    Walking,
    /// Waiting to hear whether a file message was delivered.
    Sending,
    /// Ended.
    Done,
}

/// The kinds of events, as far as the walk's rules tell them apart.
pub enum WalkEventKind {
    Cancelled,
    Unreadable,
    /// An entry that is not reported: not a file, no extension, or an
    /// extension that is not supported.
    Skipped,
    /// A file with a supported extension.
    Found,
    Exhausted,
    Delivered,
    Undeliverable,
}

/// The extension a scan records for a file: the lowercased text.
pub open spec fn reported_extension(ext: Option<String>) -> Option<Seq<char>> {
    match ext {
        Some(e) => if supported_extension(lowercase_of(e@)) {
            Some(lowercase_of(e@))
        } else {
            None
        },
        None => None,
    }
}

/// How the rules classify an event.
pub open spec fn event_kind(e: WalkEvent) -> WalkEventKind {
    match e {
        WalkEvent::Cancelled => WalkEventKind::Cancelled,
        WalkEvent::Unreadable => WalkEventKind::Unreadable,
        WalkEvent::Entry { is_file, path, extension } => {
            if is_file && reported_extension(extension) is Some {
                WalkEventKind::Found
            } else {
                WalkEventKind::Skipped
            }
        },
        WalkEvent::Exhausted => WalkEventKind::Exhausted,
        WalkEvent::Delivered => WalkEventKind::Delivered,
        WalkEvent::Undeliverable => WalkEventKind::Undeliverable,
    }
}

/// The state of a walk, as the rules see it: the phase and the number of
/// files delivered so far.
pub struct WalkStateView {
    pub phase: WalkPhase,
    pub delivered: int,
}

/// Whether an event of this kind may come in this phase.
pub open spec fn walk_accepts(phase: WalkPhase, k: WalkEventKind) -> bool {
    match phase {
        WalkPhase::Walking => !(k is Delivered || k is Undeliverable),
        WalkPhase::Sending => k is Delivered || k is Undeliverable,
        WalkPhase::Done => false,
    }
}

/// The state after an accepted event.
pub open spec fn walk_next(s: WalkStateView, k: WalkEventKind) -> WalkStateView {
    match k {
        WalkEventKind::Cancelled => WalkStateView { phase: WalkPhase::Done, ..s },
        WalkEventKind::Unreadable => s,
        WalkEventKind::Skipped => s,
        WalkEventKind::Found => WalkStateView { phase: WalkPhase::Sending, ..s },
        WalkEventKind::Exhausted => WalkStateView { phase: WalkPhase::Done, ..s },
        WalkEventKind::Delivered => WalkStateView {
            phase: WalkPhase::Walking,
            delivered: s.delivered + 1,
        },
        WalkEventKind::Undeliverable => WalkStateView { phase: WalkPhase::Done, ..s },
    }
}

/// The state after a run of events, each applied in turn.
pub open spec fn walk_run(s: WalkStateView, ks: Seq<WalkEventKind>) -> WalkStateView
    decreases ks.len(),
{
    if ks.len() == 0 {
        s
    } else {
        walk_run(walk_next(s, ks[0]), ks.drop_first())
    }
}

/// Whether every event of a run is accepted where it comes.
pub open spec fn walk_run_accepted(s: WalkStateView, ks: Seq<WalkEventKind>) -> bool
    decreases ks.len(),
{
    if ks.len() == 0 {
        true
    } else {
        walk_accepts(s.phase, ks[0]) && walk_run_accepted(walk_next(s, ks[0]), ks.drop_first())
    }
}

/// How many events of a run are deliveries.
pub open spec fn deliveries(ks: Seq<WalkEventKind>) -> int
    decreases ks.len(),
{
    if ks.len() == 0 {
        0
    } else {
        (if ks[0] is Delivered { 1int } else { 0int }) + deliveries(ks.drop_first())
    }
}

/// The state of a fresh walk.
pub open spec fn walk_start() -> WalkStateView {
    WalkStateView { phase: WalkPhase::Walking, delivered: 0 }
}

/// The count a scan reports is the number of file messages the receiver
/// took: after any run of accepted events from the start, the walk has
/// counted exactly the deliveries in it.
pub proof fn walk_counts_deliveries(ks: Seq<WalkEventKind>)
    requires
        walk_run_accepted(walk_start(), ks),
    ensures
        walk_run(walk_start(), ks).delivered == deliveries(ks),
{
    walk_counts_deliveries_from(walk_start(), ks);
}

proof fn walk_counts_deliveries_from(s: WalkStateView, ks: Seq<WalkEventKind>)
    ensures
        walk_run(s, ks).delivered == s.delivered + deliveries(ks),
    decreases ks.len(),
{
    if ks.len() > 0 {
        walk_counts_deliveries_from(walk_next(s, ks[0]), ks.drop_first());
    }
}

/// The kinds of messages a walk puts on the channel.
pub enum SentMessage {
    /// A found file (counted once the receiver took it).
    Found,
    /// The final count.
    Completed(int),
    /// The error `Scan cancelled`.
    Cancelled,
}

/// The message an accepted event puts on the channel, if any: a delivered
/// file, or the final message of a cancelled or exhausted walk.
pub open spec fn walk_sent(s: WalkStateView, k: WalkEventKind) -> Seq<SentMessage> {
    match k {
        WalkEventKind::Delivered => seq![SentMessage::Found],
        WalkEventKind::Cancelled => seq![SentMessage::Cancelled],
        WalkEventKind::Exhausted => seq![SentMessage::Completed(s.delivered)],
        _ => Seq::empty(),
    }
}

/// The messages a run of events puts on the channel, in order.
pub open spec fn walk_messages(s: WalkStateView, ks: Seq<WalkEventKind>) -> Seq<SentMessage>
    decreases ks.len(),
{
    if ks.len() == 0 {
        Seq::empty()
    } else {
        walk_sent(s, ks[0]) + walk_messages(walk_next(s, ks[0]), ks.drop_first())
    }
}

/// Whether messages have the shape of a scan's output, with `base` files
/// delivered before them: found files, then at most one final message,
/// which is either the cancellation or the count of all files found.
pub open spec fn scan_output(ms: Seq<SentMessage>, base: int) -> bool
    decreases ms.len(),
{
    if ms.len() == 0 {
        true
    } else {
        match ms[0] {
            SentMessage::Found => scan_output(ms.drop_first(), base + 1),
            SentMessage::Cancelled => ms.len() == 1,
            SentMessage::Completed(n) => ms.len() == 1 && n == base,
        }
    }
}

/// What a scan sends: found files, then at most one final message, with
/// nothing after it; a final count equals the number of files found
/// before it.
pub proof fn walk_output_shape(ks: Seq<WalkEventKind>)
    requires
        walk_run_accepted(walk_start(), ks),
    ensures
        scan_output(walk_messages(walk_start(), ks), 0),
{
    walk_output_shape_from(walk_start(), ks);
}

proof fn walk_output_shape_from(s: WalkStateView, ks: Seq<WalkEventKind>)
    requires
        walk_run_accepted(s, ks),
    ensures
        scan_output(walk_messages(s, ks), s.delivered),
    decreases ks.len(),
{
    if ks.len() > 0 {
        let next = walk_next(s, ks[0]);
        let rest = ks.drop_first();
        reveal_with_fuel(walk_run_accepted, 2);
        walk_output_shape_from(next, rest);
        let ms = walk_messages(s, ks);
        match ks[0] {
            WalkEventKind::Delivered => {
                assert(ms.drop_first() =~= walk_messages(next, rest));
            },
            WalkEventKind::Cancelled => {
                assert(rest.len() == 0);
                assert(ms =~= seq![SentMessage::Cancelled]);
            },
            WalkEventKind::Exhausted => {
                assert(rest.len() == 0);
                assert(ms =~= seq![SentMessage::Completed(s.delivered)]);
            },
            WalkEventKind::Undeliverable => {
                assert(rest.len() == 0);
                assert(ms =~= Seq::<SentMessage>::empty());
            },
            _ => {
                assert(ms =~= walk_messages(next, rest));
            },
        }
    }
}

/// An entry the walker yields, with its depth below the scanned folder:
/// the folder itself is at depth 0, its own entries at 1, theirs at 2.
pub struct DepthEntry {
    pub depth: int,
    /// The entry, as an [`WalkEvent::Entry`].
    pub entry: WalkEvent,
}

/// The entries a walk limited to depth `d` yields, given the entries of
/// the unlimited walk of the same tree in their order: those at depth `d`
/// or less, in the same order (walkdir's `max_depth`).
pub open spec fn within_depth(es: Seq<DepthEntry>, d: int) -> Seq<DepthEntry>
    decreases es.len(),
{
    if es.len() == 0 {
        es
    } else if es.last().depth <= d {
        within_depth(es.drop_last(), d).push(es.last())
    } else {
        within_depth(es.drop_last(), d)
    }
}

/// The entries at exactly depth `d`, in order.
pub open spec fn at_depth(es: Seq<DepthEntry>, d: int) -> Seq<DepthEntry>
    decreases es.len(),
{
    if es.len() == 0 {
        es
    } else if es.last().depth == d {
        at_depth(es.drop_last(), d).push(es.last())
    } else {
        at_depth(es.drop_last(), d)
    }
}

/// The paths of the files a scan reports from a run of entries, in order:
/// the entries that [`ScanWalk::step`] sends as found files.
pub open spec fn found_paths(es: Seq<DepthEntry>) -> Seq<Seq<char>>
    decreases es.len(),
{
    if es.len() == 0 {
        Seq::empty()
    } else if event_kind(es.last().entry) is Found {
        found_paths(es.drop_last()).push(es.last().entry->path@)
    } else {
        found_paths(es.drop_last())
    }
}

/// Whether entries can come from a walk of a folder: each is an entry at
/// a depth that fits the walker's counter, and the folder itself (depth
/// 0) is not a file.
pub open spec fn walk_of_folder(es: Seq<DepthEntry>) -> bool {
    forall|i: int|
        0 <= i < es.len() ==> {
            &&& #[trigger] es[i].entry is Entry
            &&& 0 <= es[i].depth <= usize::MAX
            &&& es[i].depth == 0 ==> !es[i].entry->is_file
        }
}

/// What the recursive flag changes: over the same tree, a scan limited to
/// [`Scanner::max_depth`]`(false)` (one level) reports exactly the
/// supported files directly inside the folder, in walk order, while one
/// limited to `max_depth(true)` reports every supported file of the tree.
/// So a supported file inside a subfolder is reported only by a recursive
/// scan.
pub proof fn recursive_flag_scope(es: Seq<DepthEntry>)
    requires
        walk_of_folder(es),
    ensures
        found_paths(within_depth(es, 1)) == found_paths(at_depth(es, 1)),
        found_paths(within_depth(es, usize::MAX as int)) == found_paths(es),
    decreases es.len(),
{
    if es.len() > 0 {
        let init = es.drop_last();
        assert forall|i: int| 0 <= i < init.len() implies {
            &&& #[trigger] init[i].entry is Entry
            &&& 0 <= init[i].depth <= usize::MAX
            &&& init[i].depth == 0 ==> !init[i].entry->is_file
        } by {
            assert(init[i] == es[i]);
        }
        recursive_flag_scope(init);
        let e = es.last();
        assert(e == es[es.len() - 1]);
        if e.depth <= 1 && e.depth != 1 {
            assert(!(event_kind(e.entry) is Found));
        }
        found_paths_push(within_depth(init, 1), e);
        found_paths_push(at_depth(init, 1), e);
        found_paths_push(within_depth(init, usize::MAX as int), e);
        found_paths_push(init, e);
        assert(es == init.push(e));
    }
}

proof fn found_paths_push(es: Seq<DepthEntry>, e: DepthEntry)
    ensures
        found_paths(es.push(e)) == if event_kind(e.entry) is Found {
            found_paths(es).push(e.entry->path@)
        } else {
            found_paths(es)
        },
{
    assert(es.push(e).drop_last() =~= es);
}

/// One scan's walk over a directory.
pub struct ScanWalk {
    pub scan_id: String,
    pub phase: WalkPhase,
    /// Files reported and delivered so far.
    pub total_files: i32,
}

/// The message a walk sends when it is cancelled.
pub open spec fn cancelled_text() -> Seq<char> {
    "Scan cancelled"@
}

impl ScanWalk {
    /// The rules' view of this walk.
    pub open spec fn state(&self) -> WalkStateView {
        WalkStateView { phase: self.phase, delivered: self.total_files as int }
    }

    /// A walk for the scan with this id, before its first entry.
    pub fn new(scan_id: String) -> (w: ScanWalk)
        ensures
            w.scan_id == scan_id,
            w.state() == walk_start(),
    {
        ScanWalk { scan_id, phase: WalkPhase::Walking, total_files: 0 }
    }

    /// Applies one outcome of the walk and says what to do next.
    ///
    /// A file with a supported (lowercased) extension is sent as a new
    /// record of this scan, with a fresh id, no metadata and the status
    /// `Scanned`; other entries and unreadable ones are passed over. A
    /// raised cancel flag ends the scan with the error `Scan cancelled`; an
    /// exhausted walker ends it with the number of files delivered; a
    /// receiver that is gone ends it without a message.
    pub fn step(&mut self, event: WalkEvent) -> (action: WalkAction)
        requires
            walk_accepts(old(self).phase, event_kind(event)),
            event is Delivered ==> old(self).total_files < i32::MAX,
        ensures
            final(self).state() == walk_next(old(self).state(), event_kind(event)),
            final(self).scan_id == old(self).scan_id,
            match event_kind(event) {
                WalkEventKind::Cancelled => action matches WalkAction::Stop(Some(ScannerMessage::Error(m)))
                    && m@ == cancelled_text(),
                WalkEventKind::Unreadable => action is Next,
                WalkEventKind::Skipped => action is Next,
                WalkEventKind::Found => action matches WalkAction::Send(ScannerMessage::FoundFile(f))
                    && event matches WalkEvent::Entry { path, extension, .. }
                    && uuid_v4_text(f.id@)
                    && f.scan_id@ == old(self).scan_id@
                    && f.path@ == path@
                    && Some(f.file_type@) == reported_extension(extension)
                    && f.metadata is None
                    && f.status is Scanned,
                WalkEventKind::Exhausted => action matches WalkAction::Stop(Some(ScannerMessage::Completed(n)))
                    && n == old(self).total_files,
                WalkEventKind::Delivered => action is Next,
                WalkEventKind::Undeliverable => action matches WalkAction::Stop(None),
            },
    {
        match event {
            WalkEvent::Cancelled => {
                self.phase = WalkPhase::Done;
                WalkAction::Stop(Some(ScannerMessage::Error(String::from_str("Scan cancelled"))))
            },
            WalkEvent::Unreadable => WalkAction::Next,
            WalkEvent::Entry { is_file, path, extension } => {
                if !is_file {
                    return WalkAction::Next;
                }
                match extension {
                    None => WalkAction::Next,
                    Some(ext) => {
                        let lower = lowercase(ext.as_str());
                        if Scanner::is_supported_extension(lower.as_str()) {
                            let record = FileRecord {
                                id: new_record_id(),
                                scan_id: self.scan_id.clone(),
                                path,
                                file_type: lower,
                                metadata: None,
                                status: FileStatus::Scanned,
                            };
                            self.phase = WalkPhase::Sending;
                            WalkAction::Send(ScannerMessage::FoundFile(record))
                        } else {
                            WalkAction::Next
                        }
                    },
                }
            },
            WalkEvent::Exhausted => {
                self.phase = WalkPhase::Done;
                WalkAction::Stop(Some(ScannerMessage::Completed(self.total_files)))
            },
            WalkEvent::Delivered => {
                self.phase = WalkPhase::Walking;
                self.total_files = self.total_files + 1;
                WalkAction::Next
            },
            WalkEvent::Undeliverable => {
                self.phase = WalkPhase::Done;
                WalkAction::Stop(None)
            },
        }
    }
}

} // verus!

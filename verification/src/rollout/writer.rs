//! The decisions of the one writer that owns a session's log file.
//!
//! The writer's owner does the waiting and the writing: it tells the
//! writer what happened, as a [`WriterEvent`], and does what the writer
//! answers, a [`WriterAction`]. To append a line is to write the line, then
//! a line feed, then to flush; the three succeed or fail as one.

use crate::models::ResponseItemView;
use crate::rollout::lines_of;
use vstd::prelude::*;

verus! {

/// Where a writer stands.
#[derive(Debug, Clone, Copy, PartialEq, Eq, Structural)]
pub enum Phase {
    /// Nothing has happened yet.
    AwaitingStart,
    /// A line was handed out to be appended, and the outcome is awaited.
    Writing,
    /// All that was handed out is written; the next line is awaited.
    Idle,
    /// The writer is done: it appends nothing more.
    Stopped,
}

/// What happened.
#[derive(Debug, Clone, PartialEq, Eq)]
pub enum WriterEvent {
    /// The writer's task has started. `meta_line` is the line of the log's
    /// head, or nothing where the head could not be encoded.
    Started { meta_line: Option<String> },
    /// The mailbox gave `line`.
    Queued { line: String },
    /// The line that was handed out was appended (`ok`), or could not be.
    Appended { ok: bool },
    /// The mailbox is closed and empty.
    QueueClosed,
}

/// View of a [`WriterEvent`].
pub enum WriterEventView {
    Started { meta_line: Option<Seq<char>> },
    Queued { line: Seq<char> },
    Appended { ok: bool },
    QueueClosed,
}

impl View for WriterEvent {
    type V = WriterEventView;

    open spec fn view(&self) -> WriterEventView {
        match self {
            WriterEvent::Started { meta_line } => WriterEventView::Started {
                meta_line: meta_line.deep_view(),
            },
            WriterEvent::Queued { line } => WriterEventView::Queued { line: line@ },
            WriterEvent::Appended { ok } => WriterEventView::Appended { ok: *ok },
            WriterEvent::QueueClosed => WriterEventView::QueueClosed,
        }
    }
}

/// What the writer's owner is to do next.
#[derive(Debug, Clone, PartialEq, Eq)]
pub enum WriterAction {
    /// Append `line` to the file, and report the outcome as `Appended`.
    Append { line: String },
    /// Wait for the mailbox, and report what it gives as `Queued` or
    /// `QueueClosed`.
    Receive,
    /// End the task.
    Stop,
}

/// View of a [`WriterAction`].
pub enum WriterActionView {
    Append { line: Seq<char> },
    Receive,
    Stop,
}

impl View for WriterAction {
    type V = WriterActionView;

    open spec fn view(&self) -> WriterActionView {
        match self {
            WriterAction::Append { line } => WriterActionView::Append { line: line@ },
            WriterAction::Receive => WriterActionView::Receive,
            WriterAction::Stop => WriterActionView::Stop,
        }
    }
}

/// A writer as a mathematical value.
pub struct WriterModel {
    pub phase: Phase,
    /// The line that was handed out last.
    pub pending: Seq<char>,
    /// The lines of the file, in order.
    pub log: Seq<Seq<char>>,
}

impl WriterModel {
    /// The writer before anything has happened: its file is empty.
    pub open spec fn initial() -> WriterModel {
        WriterModel { phase: Phase::AwaitingStart, pending: Seq::empty(), log: Seq::empty() }
    }

    /// The writer once it has stopped. Its file stays as it is.
    pub open spec fn stopped(self) -> WriterModel {
        WriterModel { phase: Phase::Stopped, ..self }
    }

    /// The writer once `line` was handed out.
    pub open spec fn writing(self, line: Seq<char>) -> WriterModel {
        WriterModel { phase: Phase::Writing, pending: line, ..self }
    }

    /// The writer after `event`, and what its owner is to do. The head is
    /// handed out at the start and at no other time; a line is handed out
    /// only when all before it are in the file; a line enters the file
    /// when its append succeeded; a failed append, a closed mailbox and
    /// an event that does not fit the phase stop the writer for good.
    pub open spec fn step(self, event: WriterEventView) -> (WriterModel, WriterActionView) {
        match (self.phase, event) {
            (Phase::AwaitingStart, WriterEventView::Started { meta_line: Some(line) }) => (
                self.writing(line),
                WriterActionView::Append { line },
            ),
            (Phase::Writing, WriterEventView::Appended { ok: true }) => (
                WriterModel { phase: Phase::Idle, log: self.log.push(self.pending), ..self },
                WriterActionView::Receive,
            ),
            (Phase::Idle, WriterEventView::Queued { line }) => (
                self.writing(line),
                WriterActionView::Append { line },
            ),
            _ => (self.stopped(), WriterActionView::Stop),
        }
    }

    /// The writer after the events of `events`, in order.
    pub open spec fn run(self, events: Seq<WriterEventView>) -> WriterModel
        decreases events.len(),
    {
        if events.len() == 0 {
            self
        } else {
            self.run(events.drop_last()).step(events.last()).0
        }
    }
}

/// The lines that `events` offered to the writer, in order: the head, where
/// the first event is a start with a head, and then the lines that the
/// mailbox gave.
pub open spec fn offered(events: Seq<WriterEventView>) -> Seq<Seq<char>>
    decreases events.len(),
{
    if events.len() == 0 {
        Seq::empty()
    } else {
        match events.last() {
            WriterEventView::Started { meta_line: Some(line) } if events.len() == 1 => seq![line],
            WriterEventView::Queued { line } => offered(events.drop_last()).push(line),
            _ => offered(events.drop_last()),
        }
    }
}

/// The events of a session in which nothing fails: the start with the
/// head, and for each line its arrival; each append succeeds.
pub open spec fn fault_free(head: Seq<char>, lines: Seq<Seq<char>>) -> Seq<WriterEventView>
    decreases lines.len(),
{
    if lines.len() == 0 {
        seq![
            WriterEventView::Started { meta_line: Some(head) },
            WriterEventView::Appended { ok: true },
        ]
    } else {
        fault_free(head, lines.drop_last()) + seq![
            WriterEventView::Queued { line: lines.last() },
            WriterEventView::Appended { ok: true },
        ]
    }
}

/// What holds of a writer after any events: its file is a beginning of
/// what was offered, in the order of the offers, and is all of it while
/// the writer waits for the next line.
pub open spec fn agrees(model: WriterModel, events: Seq<WriterEventView>) -> bool {
    match model.phase {
        Phase::AwaitingStart => events.len() == 0 && model.log.len() == 0,
        Phase::Writing => model.log.push(model.pending) == offered(events),
        Phase::Idle => model.log == offered(events) && model.log.len() > 0,
        Phase::Stopped => model.log.is_prefix_of(offered(events)),
    }
}

/// After any events whatever, the file is a beginning of what was offered:
/// if it has a line at all, its first line is the head that the start
/// gave, the head is in it once, and the lines after it are lines that
/// the mailbox gave, in the order in which it gave them, none left out
/// before the last.
pub proof fn lemma_log_is_prefix_of_offered(events: Seq<WriterEventView>)
    ensures
        agrees(WriterModel::initial().run(events), events),
        WriterModel::initial().run(events).log.is_prefix_of(offered(events)),
    decreases events.len(),
{
    if events.len() > 0 {
        let before = events.drop_last();
        lemma_log_is_prefix_of_offered(before);
        let m = WriterModel::initial().run(before);
        let after = m.step(events.last()).0;
        assert(after == WriterModel::initial().run(events));
        assert(offered(before).is_prefix_of(offered(events))) by {
            match events.last() {
                WriterEventView::Queued { line } => {
                    assert(offered(events) == offered(before).push(line));
                    assert(offered(events).subrange(0, offered(before).len() as int) =~= offered(
                        before,
                    ));
                },
                WriterEventView::Started { meta_line: Some(line) } => {
                    if events.len() == 1 {
                        assert(before.len() == 0);
                        assert(offered(before).len() == 0);
                        assert(offered(events).subrange(0, 0) =~= offered(before));
                    } else {
                        assert(offered(events).subrange(0, offered(before).len() as int)
                            =~= offered(before));
                    }
                },
                _ => {
                    assert(offered(events).subrange(0, offered(before).len() as int) =~= offered(
                        before,
                    ));
                },
            }
        }
        assert(m.log.is_prefix_of(offered(before))) by {
            if m.phase == Phase::Writing {
                assert(offered(before).subrange(0, m.log.len() as int) =~= m.log);
            } else if m.phase == Phase::Idle {
                assert(offered(before).subrange(0, m.log.len() as int) =~= m.log);
            }
        }
        assert(m.log.is_prefix_of(offered(events))) by {
            assert(offered(events).subrange(0, m.log.len() as int) =~= offered(before).subrange(
                0,
                offered(before).len() as int,
            ).subrange(0, m.log.len() as int));
        }
        match (m.phase, events.last()) {
            (Phase::AwaitingStart, WriterEventView::Started { meta_line: Some(line) }) => {
                assert(after.log.push(after.pending) =~= offered(events));
            },
            (Phase::Writing, WriterEventView::Appended { ok: true }) => {},
            (Phase::Idle, WriterEventView::Queued { line }) => {},
            _ => {},
        }
        let done = WriterModel::initial().run(events);
        if done.phase == Phase::Writing {
            assert(offered(events).subrange(0, done.log.len() as int) =~= done.log);
        } else if done.phase == Phase::Idle {
            assert(offered(events).subrange(0, done.log.len() as int) =~= done.log);
        }
    } else {
        assert(offered(events).subrange(0, 0) =~= Seq::<Seq<char>>::empty());
    }
}

/// In a session in which nothing fails, the file holds the head and then
/// every line that the mailbox gave, in the order in which it gave them,
/// and the writer waits for the next.
pub proof fn lemma_fault_free_log(head: Seq<char>, lines: Seq<Seq<char>>)
    ensures
        WriterModel::initial().run(fault_free(head, lines)) == (WriterModel {
            phase: Phase::Idle,
            pending: if lines.len() == 0 {
                head
            } else {
                lines.last()
            },
            log: seq![head] + lines,
        }),
    decreases lines.len(),
{
    let start = WriterModel::initial();
    if lines.len() == 0 {
        let events = fault_free(head, lines);
        let first = seq![WriterEventView::Started { meta_line: Some(head) }];
        assert(events.drop_last() =~= first);
        assert(first.drop_last() =~= Seq::<WriterEventView>::empty());
        assert(start.run(first.drop_last()) == start);
        assert(start.run(first) == start.writing(head));
        assert(start.run(events).log =~= seq![head] + lines);
    } else {
        let shorter = fault_free(head, lines.drop_last());
        let events = fault_free(head, lines);
        lemma_fault_free_log(head, lines.drop_last());
        let queued = shorter.push(WriterEventView::Queued { line: lines.last() });
        assert(events.drop_last() =~= queued);
        assert(queued.drop_last() =~= shorter);
        assert(start.run(queued) == start.run(shorter).writing(lines.last()));
        assert(start.run(events).log =~= seq![head] + lines);
    }
}

/// Recording batches of items in a session in which nothing fails gives
/// a file that holds the head and then the lines of the items that a log
/// keeps, in the order in which the items were recorded.
pub proof fn lemma_log_lists_items_in_order(head: Seq<char>, items: Seq<ResponseItemView>)
    ensures
        WriterModel::initial().run(fault_free(head, lines_of(items))).log == seq![head] + lines_of(
            items,
        ),
        WriterModel::initial().run(fault_free(head, lines_of(items))).log[0] == head,
{
    lemma_fault_free_log(head, lines_of(items));
}

/// The writer of one session's log.
pub struct RolloutWriter {
    phase: Phase,
    pending: String,
    log: Ghost<Seq<Seq<char>>>,
}

impl View for RolloutWriter {
    type V = WriterModel;

    closed spec fn view(&self) -> WriterModel {
        WriterModel { phase: self.phase, pending: self.pending@, log: self.log@ }
    }
}

impl RolloutWriter {
    /// A writer before anything has happened.
    pub fn new() -> (writer: RolloutWriter)
        ensures
            writer@ == WriterModel::initial(),
    {
        RolloutWriter { phase: Phase::AwaitingStart, pending: String::new(), log: Ghost(Seq::empty()) }
    }

    /// Where the writer stands.
    pub fn phase(&self) -> (phase: Phase)
        ensures
            phase == self@.phase,
    {
        self.phase
    }

    /// Takes note of `event` and says what to do next.
    pub fn step(&mut self, event: WriterEvent) -> (action: WriterAction)
        ensures
            (final(self)@, action@) == old(self)@.step(event@),
    {
        match (self.phase, event) {
            (Phase::AwaitingStart, WriterEvent::Started { meta_line: Some(line) }) => {
                self.phase = Phase::Writing;
                self.pending = line.clone();
                WriterAction::Append { line }
            },
            (Phase::Writing, WriterEvent::Appended { ok: true }) => {
                self.phase = Phase::Idle;
                self.log = Ghost(self.log@.push(self.pending@));
                WriterAction::Receive
            },
            (Phase::Idle, WriterEvent::Queued { line }) => {
                self.phase = Phase::Writing;
                self.pending = line.clone();
                WriterAction::Append { line }
            },
            _ => {
                self.phase = Phase::Stopped;
                WriterAction::Stop
            },
        }
    }
}

/// The bytes that appending `line` adds to the file: the line in UTF-8,
/// and a line feed.
pub open spec fn framed(line: Seq<char>) -> Seq<u8> {
    vstd::utf8::encode_utf8(line).push(0x0a)
}

/// The bytes that appending `line` adds to the file.
pub fn frame_line(line: &str) -> (bytes: Vec<u8>)
    ensures
        bytes@ == framed(line@),
{
    let text = line.as_bytes();
    let mut bytes: Vec<u8> = Vec::new();
    let mut i: usize = 0;
    while i < text.len()
        invariant
            i <= text@.len(),
            text@ == vstd::utf8::encode_utf8(line@),
            bytes@ == text@.subrange(0, i as int),
        decreases text.len() - i,
    {
        bytes.push(text[i]);
        assert(bytes@ =~= text@.subrange(0, i + 1));
        i += 1;
    }
    assert(text@.subrange(0, text@.len() as int) =~= text@);
    bytes.push(0x0a);
    bytes
}

} // verus!

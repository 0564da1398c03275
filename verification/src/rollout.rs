//! The session log: an append-only file of JSON lines, whose first line
//! names the session and whose other lines are conversation items in the
//! order in which they were recorded.
//!
//! Producers hand lines to one writer through a bounded mailbox. This
//! module says which items are recorded and what their lines are; the
//! writer's decisions are in [`writer`].

pub mod meta;
pub mod writer;

use crate::json::json_text;
use crate::models::ResponseItem;
use crate::models::ResponseItemView;
use crate::wire::encode_item;
use crate::wire::encoded_item;
use tokio::sync::mpsc::Sender;
use vstd::prelude::*;

verus! {

/// How many lines the mailbox between the producers and the writer holds.
pub const MAILBOX_CAPACITY: usize = 256;

/// Why an item was not handed to the writer.
#[derive(Debug, Clone, Copy, PartialEq, Eq, Structural)]
pub enum RolloutError {
    /// The item has no encoding: its environment names a variable twice.
    Unencodable,
    /// What was to be recorded has no JSON text.
    Serialize,
    /// The mailbox is full.
    QueueFull,
    /// The writer has stopped.
    QueueClosed,
}

impl RolloutError {
    /// The error in words.
    pub fn message(&self) -> (text: &'static str)
        ensures
            text@ == (match self {
                RolloutError::Unencodable | RolloutError::Serialize => {
                    "failed to serialize response items"@
                },
                RolloutError::QueueFull => "failed to queue rollout item: mailbox full"@,
                RolloutError::QueueClosed => "failed to queue rollout item: writer stopped"@,
            }),
    {
        match self {
            RolloutError::Unencodable | RolloutError::Serialize => "failed to serialize response items",
            RolloutError::QueueFull => "failed to queue rollout item: mailbox full",
            RolloutError::QueueClosed => "failed to queue rollout item: writer stopped",
        }
    }
}

/// The items that a log keeps: all but reasoning and items of unknown kind.
pub open spec fn persisted(item: ResponseItemView) -> bool {
    !(item is Reasoning) && !(item is Other)
}

/// Whether a log keeps `item`.
pub fn is_persisted(item: &ResponseItem) -> (yes: bool)
    ensures
        yes == persisted(item@),
{
    match item {
        ResponseItem::Message { .. }
        | ResponseItem::LocalShellCall { .. }
        | ResponseItem::FunctionCall { .. }
        | ResponseItem::FunctionCallOutput { .. } => true,
        ResponseItem::Reasoning { .. } | ResponseItem::Other => false,
    }
}

/// What encoding an item for a log gives. An item that is not well formed
/// has no line; for any other item the line is the JSON text of its
/// encoding, and the error `Serialize` stands where the JSON writer gives
/// no text.
pub open spec fn encoded_line(item: ResponseItemView) -> Result<Seq<char>, RolloutError> {
    if !item.wf() {
        Err(RolloutError::Unencodable)
    } else {
        match json_text(encoded_item(item)) {
            Some(text) => Ok(text),
            None => Err(RolloutError::Serialize),
        }
    }
}

/// The line of an item in a log: the JSON text of its encoding.
pub open spec fn line_of(item: ResponseItemView) -> Seq<char> {
    json_text(encoded_item(item))->0
}

/// The views of `items`, in order.
pub open spec fn item_views(items: Seq<ResponseItem>) -> Seq<ResponseItemView> {
    Seq::new(items.len(), |i: int| items[i]@)
}

/// The lines that recording `items` adds to a log: the lines of the items
/// that a log keeps, in the order of the items.
pub open spec fn lines_of(items: Seq<ResponseItemView>) -> Seq<Seq<char>>
    decreases items.len(),
{
    if items.len() == 0 {
        Seq::empty()
    } else if persisted(items.last()) {
        lines_of(items.drop_last()).push(line_of(items.last()))
    } else {
        lines_of(items.drop_last())
    }
}

/// Recording one batch after another adds the lines of the first and then
/// the lines of the second.
pub proof fn lemma_lines_of_concat(first: Seq<ResponseItemView>, second: Seq<ResponseItemView>)
    ensures
        lines_of(first + second) == lines_of(first) + lines_of(second),
    decreases second.len(),
{
    if second.len() == 0 {
        assert(first + second =~= first);
        assert(lines_of(first) + lines_of(second) =~= lines_of(first));
    } else {
        assert((first + second).drop_last() =~= first + second.drop_last());
        assert((first + second).last() == second.last());
        lemma_lines_of_concat(first, second.drop_last());
        assert(lines_of(first + second) =~= lines_of(first) + lines_of(second));
    }
}

/// Every line that recording adds is the line of an item that a log
/// keeps: reasoning and items of unknown kind add none.
pub proof fn lemma_lines_are_of_persisted_items(items: Seq<ResponseItemView>, k: int)
    requires
        0 <= k < lines_of(items).len(),
    ensures
        exists|j: int| 0 <= j < items.len() && persisted(#[trigger] items[j]) && lines_of(items)[k] == line_of(items[j]),
    decreases items.len(),
{
    if persisted(items.last()) && k == lines_of(items).len() - 1 {
        assert(persisted(items[items.len() - 1]));
    } else {
        lemma_lines_are_of_persisted_items(items.drop_last(), k);
        let j = choose|j: int|
            0 <= j < items.drop_last().len() && persisted(#[trigger] items.drop_last()[j])
                && lines_of(items.drop_last())[k] == line_of(items.drop_last()[j]);
        assert(items[j] == items.drop_last()[j]);
    }
}

/// What encoding gave for an item: the item's well-formedness and the text
/// that the JSON writer gave.
pub fn encoding_outcome(well_formed: bool, text: Option<String>) -> (line: Result<String, RolloutError>)
    ensures
        line == (if !well_formed {
            Err::<String, RolloutError>(RolloutError::Unencodable)
        } else {
            match text {
                Some(t) => Ok(t),
                None => Err(RolloutError::Serialize),
            }
        }),
{
    if !well_formed {
        Err(RolloutError::Unencodable)
    } else {
        match text {
            Some(t) => Ok(t),
            None => Err(RolloutError::Serialize),
        }
    }
}

/// The line of `item`. An item that is not well formed has none; every
/// other item has one, the JSON text of its encoding.
pub fn encode_line(item: &ResponseItem) -> (line: Result<String, RolloutError>)
    ensures
        match line {
            Ok(text) => encoded_line(item@) == Ok::<Seq<char>, RolloutError>(text@),
            Err(e) => encoded_line(item@) == Err::<Seq<char>, RolloutError>(e),
        },
        line matches Ok(text) ==> text@ == line_of(item@),
        line is Ok == item@.wf(),
{
    let well_formed = item.is_wf();
    if !well_formed {
        return encoding_outcome(false, None);
    }
    let json = encode_item(item);
    proof {
        crate::wire::lemma_item_renderable(item@);
        crate::json::lemma_exact_is_written(json@);
    }
    encoding_outcome(true, json.to_text())
}

/// What came of one batch of items.
#[derive(Debug, Clone, PartialEq, Eq)]
pub struct Batch {
    /// The lines to hand to the writer, in order.
    pub lines: Vec<String>,
    /// How many items of the batch the lines stand for.
    pub consumed: usize,
    /// Why the item after those has no line, if the batch was not used up.
    pub error: Option<RolloutError>,
}

impl Batch {
    /// The line to send next when `delivered` lines of the batch are in
    /// the mailbox: none once a send has failed, and none when all are
    /// sent. Sending stops at the first send that fails.
    pub fn next_to_send(&self, delivered: usize, sends_ok: bool) -> (line: Option<&String>)
        ensures
            line is Some == (sends_ok && delivered < self.lines@.len()),
            line matches Some(l) ==> *l == self.lines@[delivered as int],
    {
        if sends_ok && delivered < self.lines.len() {
            Some(&self.lines[delivered])
        } else {
            None
        }
    }

    /// What the caller is told when sending has ended: that the writer has
    /// stopped where a send failed; otherwise why the batch was not used
    /// up, if it was not; otherwise success.
    pub fn result_after(&self, sends_ok: bool) -> (result: Result<(), RolloutError>)
        ensures
            result == (if !sends_ok {
                Err::<(), RolloutError>(RolloutError::QueueClosed)
            } else {
                match self.error {
                    Some(e) => Err(e),
                    None => Ok(()),
                }
            }),
    {
        if !sends_ok {
            Err(RolloutError::QueueClosed)
        } else {
            match self.error {
                Some(e) => Err(e),
                None => Ok(()),
            }
        }
    }
}

/// The lines of a batch of items, for the writer. Items are taken in order
/// up to the first that a log keeps and that has no line: `consumed`
/// counts the items before it, and `error` says why it has none.
pub fn lines_for(items: &[ResponseItem]) -> (batch: Batch)
    ensures
        batch.consumed <= items@.len(),
        batch.lines.deep_view() == lines_of(item_views(items@).take(batch.consumed as int)),
        forall|k: int|
            0 <= k < batch.consumed && persisted(#[trigger] items@[k]@) ==> encoded_line(items@[k]@) is Ok,
        batch.error is None <==> batch.consumed == items@.len(),
        batch.error matches Some(e) ==> persisted(items@[batch.consumed as int]@) && encoded_line(
            items@[batch.consumed as int]@,
        ) == Err::<Seq<char>, RolloutError>(e),
        batch.error matches Some(e) ==> e == RolloutError::Unencodable && !items@[batch.consumed as int]@.wf(),
        (forall|k: int| 0 <= k < items@.len() ==> (#[trigger] items@[k])@.wf()) ==> batch.error is None
            && batch.consumed == items@.len(),
{
    let mut lines: Vec<String> = Vec::new();
    let mut i: usize = 0;
    let ghost views = item_views(items@);
    assert(views.take(0) =~= Seq::empty());
    assert(lines.deep_view() =~= Seq::empty());
    while i < items.len()
        invariant
            i <= items@.len(),
            views == item_views(items@),
            lines.deep_view() == lines_of(views.take(i as int)),
            forall|k: int| 0 <= k < i && persisted(#[trigger] items@[k]@) ==> encoded_line(items@[k]@) is Ok,
        decreases items.len() - i,
    {
        let item = &items[i];
        proof {
            assert(views.take(i + 1).drop_last() =~= views.take(i as int));
            assert(views.take(i + 1).last() == item@);
        }
        if is_persisted(item) {
            match encode_line(item) {
                Ok(line) => {
                    let ghost before = lines.deep_view();
                    lines.push(line);
                    assert(lines.deep_view() =~= before.push(line@));
                },
                Err(error) => {
                    return Batch { lines, consumed: i, error: Some(error) };
                },
            }
        }
        i += 1;
    }
    Batch { lines, consumed: i, error: None }
}

/// `tokio::sync::mpsc::Sender`, the producers' end of the mailbox.
#[verifier::external_type_specification]
#[verifier::external_body]
#[verifier::reject_recursive_types(T)]
pub struct ExSender<T>(Sender<T>);

/// What became of a line that was offered to the mailbox without waiting.
#[derive(Debug, Clone, Copy, PartialEq, Eq, Structural)]
pub enum QueueOutcome {
    /// The mailbox took the line.
    Queued,
    /// The mailbox was full; the line was not taken.
    Full,
    /// The writer's end of the mailbox is gone; the line was not taken.
    Closed,
}

/// `Sender::try_send`: offers `line` to the mailbox without waiting. What
/// comes back depends on the mailbox, so nothing is said of it.
#[verifier::external_body]
fn try_send_line(tx: &Sender<String>, line: String) -> (outcome: QueueOutcome) {
    match tx.try_send(line) {
        Ok(()) => QueueOutcome::Queued,
        Err(tokio::sync::mpsc::error::TrySendError::Full(_)) => QueueOutcome::Full,
        Err(tokio::sync::mpsc::error::TrySendError::Closed(_)) => QueueOutcome::Closed,
    }
}

/// `Sender::clone`: one more handle on the same mailbox.
#[verifier::external_body]
fn clone_sender(tx: &Sender<String>) -> (copy: Sender<String>) {
    tx.clone()
}

/// The producers' handle on a session's log.
pub struct RolloutRecorder {
    tx: Sender<String>,
}

impl Clone for RolloutRecorder {
    fn clone(&self) -> (copy: Self) {
        RolloutRecorder { tx: clone_sender(&self.tx) }
    }
}

impl RolloutRecorder {
    /// A recorder that hands its lines to the mailbox behind `tx`.
    pub fn new(tx: Sender<String>) -> (recorder: Self)
        ensures
            recorder.mailbox() == tx,
    {
        RolloutRecorder { tx }
    }

    /// The producers' end of the mailbox.
    pub closed spec fn mailbox(&self) -> Sender<String> {
        self.tx
    }

    /// The producers' end of the mailbox, for whoever sends and waits.
    pub fn sender(&self) -> (tx: &Sender<String>)
        ensures
            *tx == self.mailbox(),
    {
        &self.tx
    }

    /// What a producer is told of a line that was offered without waiting:
    /// success only where the mailbox took the line, and otherwise why the
    /// line is not in the log.
    pub fn queue_result(outcome: QueueOutcome) -> (result: Result<(), RolloutError>)
        ensures
            result == (match outcome {
                QueueOutcome::Queued => Ok::<(), RolloutError>(()),
                QueueOutcome::Full => Err(RolloutError::QueueFull),
                QueueOutcome::Closed => Err(RolloutError::QueueClosed),
            }),
    {
        match outcome {
            QueueOutcome::Queued => Ok(()),
            QueueOutcome::Full => Err(RolloutError::QueueFull),
            QueueOutcome::Closed => Err(RolloutError::QueueClosed),
        }
    }

    /// What is to be offered to the writer for `item`: nothing for an item
    /// that a log does not keep, the item's line for any other, and the
    /// error `Unencodable` for an item that a log keeps and that has none.
    pub fn line_to_offer(item: &ResponseItem) -> (offer: Result<Option<String>, RolloutError>)
        ensures
            !persisted(item@) ==> offer == Ok::<Option<String>, RolloutError>(None),
            persisted(item@) ==> (match offer {
                Ok(Some(line)) => encoded_line(item@) == Ok::<Seq<char>, RolloutError>(line@),
                Ok(None) => false,
                Err(e) => encoded_line(item@) == Err::<Seq<char>, RolloutError>(e),
            }),
            offer is Err <==> persisted(item@) && !item@.wf(),
    {
        if !is_persisted(item) {
            return Ok(None);
        }
        match encode_line(item) {
            Ok(line) => Ok(Some(line)),
            Err(error) => Err(error),
        }
    }

    /// Offers the line of `item` to the writer without waiting. For an
    /// item that a log does not keep nothing is offered, and the call
    /// succeeds. An item that a log keeps and that has no line is refused
    /// before the mailbox is touched; a line that the mailbox does not
    /// take is reported as `QueueFull` or `QueueClosed`.
    pub fn try_record_item(&self, item: &ResponseItem) -> (result: Result<(), RolloutError>)
        ensures
            !persisted(item@) ==> result == Ok::<(), RolloutError>(()),
            persisted(item@) ==> (match encoded_line(item@) {
                Err(e) => result == Err::<(), RolloutError>(e),
                Ok(_) => match result {
                    Ok(()) => true,
                    Err(e) => e == RolloutError::QueueFull || e == RolloutError::QueueClosed,
                },
            }),
            result matches Err(RolloutError::Unencodable) <==> persisted(item@) && !item@.wf(),
    {
        match RolloutRecorder::line_to_offer(item) {
            Ok(Some(line)) => RolloutRecorder::queue_result(try_send_line(&self.tx, line)),
            Ok(None) => Ok(()),
            Err(error) => Err(error),
        }
    }
}

impl RolloutRecorder {
    /// Offers the text of a JSON document to the writer without waiting,
    /// as a line of its own. A document that has no text is refused with
    /// `Serialize` before the mailbox is touched; a line that the mailbox
    /// does not take is reported as `QueueFull` or `QueueClosed`.
    pub fn try_record_json(&self, value: &crate::json::Json) -> (result: Result<(), RolloutError>)
        ensures
            result matches Err(RolloutError::Serialize) <==> !(value@.wf() && value@.writable()),
            match result {
                Ok(()) => true,
                Err(e) => e == RolloutError::Serialize || e == RolloutError::QueueFull || e
                    == RolloutError::QueueClosed,
            },
    {
        match value.to_text() {
            Some(line) => RolloutRecorder::queue_result(try_send_line(&self.tx, line)),
            None => Err(RolloutError::Serialize),
        }
    }
}

} // verus!

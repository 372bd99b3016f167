use vstd::prelude::*;

use crate::messages::stored_of;
use crate::messages::Message;
use crate::messages::StoredMessage;

verus! {

/// Faults of a backing store. They are never retried here: the service
/// answers the failing request as a server error and keeps serving.
#[derive(Clone, Copy, Debug, PartialEq, Eq, Structural)]
pub enum StoreError {
    /// The store could not be reached.
    Unavailable,
    /// The store answered, but not in the shape the contract promises
    /// (a malformed row, or a write that touched more than one row).
    Corrupt,
}

/// An ordered, append-only collection of stored messages.
///
/// The two operations are each atomic with respect to the other: a reader
/// sees the log before or after an append, never a torn state. Within this
/// library that atomicity is ownership (`append` needs exclusive access);
/// an adapter that shares one store across callers must serialize the two
/// operations, for example behind a readers-writer lock.
pub trait LogStore: Sized {
    /// The messages currently stored, in insertion order.
    spec fn log(&self) -> Seq<StoredMessage>;

    /// Whether this store can fail; a store that cannot owes success to
    /// every call.
    spec fn always_ok(&self) -> bool;

    /// Adds one message to the end of the log, or leaves the log unchanged
    /// and reports the fault.
    fn append(&mut self, msg: StoredMessage) -> (r: Result<(), StoreError>)
        ensures
            r is Ok ==> final(self).log() == old(self).log().push(msg),
            r is Err ==> final(self).log() == old(self).log(),
            final(self).always_ok() == old(self).always_ok(),
            old(self).always_ok() ==> r is Ok,
    ;

    /// Returns every message currently stored, in insertion order, as of
    /// one consistent instant.
    fn read_all(&self) -> (r: Result<Vec<StoredMessage>, StoreError>)
        ensures
            r is Ok ==> r->Ok_0@ == self.log(),
            self.always_ok() ==> r is Ok,
    ;
}

/// The in-memory store variant: a growable buffer owned by the service.
/// It cannot fail, and growth is unbounded.
pub struct MessageLog {
    messages: Vec<StoredMessage>,
}

impl MessageLog {
    /// A fresh, empty log.
    pub fn new() -> (r: Self)
        ensures
            r.log() == Seq::<StoredMessage>::empty(),
            r.always_ok(),
    {
        MessageLog { messages: Vec::new() }
    }
}

impl LogStore for MessageLog {
    closed spec fn log(&self) -> Seq<StoredMessage> {
        self.messages@
    }

    open spec fn always_ok(&self) -> bool {
        true
    }

    fn append(&mut self, msg: StoredMessage) -> (r: Result<(), StoreError>) {
        self.messages.push(msg);
        Ok(())
    }

    fn read_all(&self) -> (r: Result<Vec<StoredMessage>, StoreError>) {
        let copy = self.messages.clone();
        proof {
            assert(copy@ =~= self.messages@);
        }
        Ok(copy)
    }
}

/// The log after a batch of appends has been performed in the given order:
/// each append pushes one message at the end, as `LogStore::append` promises.
pub open spec fn after_appends(log: Seq<StoredMessage>, batch: Seq<StoredMessage>) -> Seq<
    StoredMessage,
>
    decreases batch.len(),
{
    if batch.len() == 0 {
        log
    } else {
        after_appends(log.push(batch.first()), batch.drop_first())
    }
}

/// The stored messages a batch of submissions becomes, message `i` being
/// timestamped at `times[i]`.
pub open spec fn stored_batch(msgs: Seq<Message>, times: Seq<i64>) -> Seq<StoredMessage> {
    Seq::new(msgs.len(), |i: int| stored_of(msgs[i], times[i]))
}

/// Law: a run of appends, in whatever order the store serialized them,
/// concatenates the batch onto the log. Nothing already stored moves, and
/// nothing is lost or duplicated.
pub proof fn lemma_after_appends(log: Seq<StoredMessage>, batch: Seq<StoredMessage>)
    ensures
        after_appends(log, batch) == log + batch,
        after_appends(log, batch).len() == log.len() + batch.len(),
        forall|i: int|
            0 <= i < log.len() ==> #[trigger] after_appends(log, batch)[i] == log[i],
        forall|i: int|
            0 <= i < batch.len() ==> #[trigger] after_appends(log, batch)[log.len() + i]
                == batch[i],
    decreases batch.len(),
{
    if batch.len() == 0 {
        assert(log + batch =~= log);
    } else {
        lemma_after_appends(log.push(batch.first()), batch.drop_first());
        assert(log.push(batch.first()) + batch.drop_first() =~= log + batch);
    }
}

/// Law (append visibility): after a batch of valid submissions is appended,
/// a read returns exactly the old log followed by one stored message per
/// submission, carrying its `(user, content)` pair and its server-assigned
/// time — no loss, no duplicate, no foreign record.
pub proof fn lemma_append_visibility(
    log: Seq<StoredMessage>,
    msgs: Seq<Message>,
    times: Seq<i64>,
)
    requires
        msgs.len() == times.len(),
    ensures
        after_appends(log, stored_batch(msgs, times)) == log + stored_batch(msgs, times),
        after_appends(log, stored_batch(msgs, times)).len() == log.len() + msgs.len(),
        forall|i: int|
            0 <= i < log.len() ==> #[trigger] after_appends(log, stored_batch(msgs, times))[i]
                == log[i],
        forall|i: int|
            0 <= i < msgs.len() ==> #[trigger] after_appends(log, stored_batch(msgs, times))[log.len()
                + i] == stored_of(msgs[i], times[i]),
{
    lemma_after_appends(log, stored_batch(msgs, times));
}

/// Law (order preservation): if append `i` was serialized by the store
/// before append `j`, message `i` precedes message `j` in every later read.
pub proof fn lemma_order_preservation(
    log: Seq<StoredMessage>,
    batch: Seq<StoredMessage>,
    i: int,
    j: int,
)
    requires
        0 <= i < j < batch.len(),
    ensures
        after_appends(log, batch)[log.len() + i] == batch[i],
        after_appends(log, batch)[log.len() + j] == batch[j],
        log.len() + i < log.len() + j < after_appends(log, batch).len(),
{
    lemma_after_appends(log, batch);
}

/// The stored message one well-formed database row stands for: the row's
/// time, user and content columns, in that order.
pub open spec fn stored_of_row(row: (i64, String, String)) -> StoredMessage {
    StoredMessage { time: row.0, user: row.1, content: row.2 }
}

/// Turns the rows of a database read, already split into their three
/// columns, into stored messages, keeping their order.
pub fn rows_to_messages(rows: &Vec<(i64, String, String)>) -> (r: Vec<StoredMessage>)
    ensures
        r@.len() == rows@.len(),
        forall|i: int| 0 <= i < rows@.len() ==> r@[i] == stored_of_row(rows@[i]),
{
    let mut out: Vec<StoredMessage> = Vec::new();
    let mut idx: usize = 0;
    while idx < rows.len()
        invariant
            idx <= rows@.len(),
            out@.len() == idx,
            forall|i: int| 0 <= i < idx ==> out@[i] == stored_of_row(rows@[i]),
        decreases rows@.len() - idx,
    {
        let row = &rows[idx];
        out.push(StoredMessage { time: row.0, user: row.1.clone(), content: row.2.clone() });
        idx = idx + 1;
    }
    out
}

/// Interprets the row count a database reports for the single-row insert
/// behind `append`: any count but one means the write did not do what the
/// statement says, and the log can no longer be trusted.
pub fn check_insert_count(n: u64) -> (r: Result<(), StoreError>)
    ensures
        n == 1 <==> r is Ok,
        n != 1 ==> r == Err::<(), StoreError>(StoreError::Corrupt),
{
    if n == 1 {
        Ok(())
    } else {
        Err(StoreError::Corrupt)
    }
}

} // verus!

use vstd::prelude::*;

use crate::messages::StoredMessage;

verus! {

/// The full state of the board as handed to a reader: the server metadata
/// and every stored message, captured at one instant. It is synthesized
/// fresh on every read and owns its data, so serializing it touches no
/// lock and no connection.
pub struct Board {
    /// Title of the server
    pub title: String,
    /// The time the snapshot was captured, in microseconds since the Unix
    /// epoch
    pub time: i64,
    /// The time the server was started, in microseconds since the Unix
    /// epoch
    pub started_at: i64,
    /// The messages at that time, in insertion order
    pub messages: Vec<StoredMessage>,
}

impl Board {
    /// Every board handed to a reader is captured no earlier than the
    /// server's start.
    pub open spec fn wf(&self) -> bool {
        self.started_at <= self.time
    }
}

/// What a snapshot owes: the server's metadata verbatim, the capture time,
/// and exactly the log as of that one instant.
pub open spec fn snapshot_ok(
    b: Board,
    title: Seq<char>,
    started_at: i64,
    time: i64,
    log: Seq<StoredMessage>,
) -> bool {
    &&& b.title@ == title
    &&& b.started_at == started_at
    &&& b.time == time
    &&& b.messages@ == log
}

/// Builds the board value for one read: metadata plus the messages of one
/// consistent read of the store. The capture time may not precede the
/// server's start.
pub fn build_board(
    title: &String,
    started_at: i64,
    time: i64,
    messages: Vec<StoredMessage>,
) -> (b: Board)
    requires
        started_at <= time,
    ensures
        snapshot_ok(b, title@, started_at, time, messages@),
        b.wf(),
{
    Board { title: title.clone(), time: time, started_at: started_at, messages: messages }
}

/// Law (snapshot monotonicity): of two snapshots of one server, the one
/// captured no earlier carries the larger-or-equal time, and both carry
/// the same start time — whatever the log held at either instant. The
/// premise `t1 <= t2` is needed: capture times come from the system
/// clock, of which nothing is promised, so a clock stepped backwards
/// between two reads can order their boards' times backwards too.
pub proof fn lemma_snapshot_monotonic(
    b1: Board,
    b2: Board,
    title: Seq<char>,
    started_at: i64,
    t1: i64,
    t2: i64,
    log1: Seq<StoredMessage>,
    log2: Seq<StoredMessage>,
)
    requires
        snapshot_ok(b1, title, started_at, t1, log1),
        snapshot_ok(b2, title, started_at, t2, log2),
        t1 <= t2,
    ensures
        b1.time <= b2.time,
        b1.started_at == b2.started_at,
        b1.title@ == b2.title@,
{
}

/// Law (no partial visibility): a read serialized against one in-flight
/// append sees either the log without the appended message or the log with
/// it appended whole — one of the two counts, and never a torn record.
pub proof fn lemma_no_partial_visibility(
    b: Board,
    title: Seq<char>,
    started_at: i64,
    t: i64,
    log: Seq<StoredMessage>,
    m: StoredMessage,
)
    requires
        snapshot_ok(b, title, started_at, t, log) || snapshot_ok(
            b,
            title,
            started_at,
            t,
            log.push(m),
        ),
    ensures
        b.messages@ == log || b.messages@ == log.push(m),
        b.messages@.len() == log.len() || b.messages@.len() == log.len() + 1,
        b.messages@ == log.push(m) ==> b.messages@.last() == m,
{
}

} // verus!

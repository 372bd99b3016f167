use vstd::prelude::*;

use crate::board::build_board;
use crate::board::snapshot_ok;
use crate::board::Board;
use crate::messages::stored_of;
use crate::messages::validate;
use crate::messages::valid_message;
use crate::messages::valid_user;
use crate::messages::Message;
use crate::messages::StoredMessage;
use crate::messages::ValidationError;
use crate::store::LogStore;

verus! {

/// A store fault as reported at the service boundary: the caller learns
/// only that the server could not serve the request, and the process keeps
/// serving later requests.
#[derive(Clone, Copy, Debug, PartialEq, Eq, Structural)]
pub enum ServiceError {
    /// The backing store failed the operation.
    StoreUnavailable,
}

/// Every way a post can be refused: the two validation outcomes, reported
/// before any store interaction, and the uniform server-side failure.
#[derive(Clone, Copy, Debug, PartialEq, Eq, Structural)]
pub enum PostError {
    /// The user name is empty or too long.
    InvalidUser,
    /// The message text is empty.
    EmptyContent,
    /// The message was valid, but the store refused the append.
    StoreUnavailable,
}

/// Converts a store fault into the uniform server-error signal the service
/// answers with.
pub fn service_error_of(e: &crate::store::StoreError) -> (r: ServiceError)
    ensures
        r == ServiceError::StoreUnavailable,
{
    ServiceError::StoreUnavailable
}

/// The error `post_message` owes for each submitted message the validation
/// refuses: the user name is judged first, then the content.
pub open spec fn spec_post_rejection(msg: Message) -> PostError {
    if !valid_user(msg.user@) {
        PostError::InvalidUser
    } else {
        PostError::EmptyContent
    }
}

/// Relies on chrono::Utc::now and chrono::DateTime::timestamp_micros: the
/// system clock read as microseconds since the Unix epoch. The call does
/// not return on a system clock set before the epoch, so every value is
/// non-negative; beyond that nothing is promised, and the clock may move
/// any way between two reads.
#[verifier::external_body]
pub fn now_micros() -> (t: i64)
    ensures
        0 <= t,
{
    chrono::Utc::now().timestamp_micros()
}

/// The board service: the process-wide metadata, fixed at start and never
/// mutated, and the message log store it owns for its whole lifetime. The
/// store is never handed out; callers reach it only through `get_board`
/// and `post_message`.
pub struct ServerStatus<S: LogStore> {
    title: String,
    started_at: i64,
    store: S,
}

impl<S: LogStore> ServerStatus<S> {
    /// The server's title, as shown on every board.
    pub closed spec fn spec_title(&self) -> Seq<char> {
        self.title@
    }

    /// The instant the service was started, in microseconds since the Unix
    /// epoch.
    pub closed spec fn spec_started_at(&self) -> i64 {
        self.started_at
    }

    /// The messages the owned store holds, in insertion order.
    pub closed spec fn spec_log(&self) -> Seq<StoredMessage> {
        self.store.log()
    }

    /// Whether the owned store can fail.
    pub closed spec fn spec_store_always_ok(&self) -> bool {
        self.store.always_ok()
    }

    /// A fresh service over `store`, started at `started_at` with the given
    /// title.
    pub fn new(title: String, started_at: i64, store: S) -> (r: Self)
        ensures
            r.spec_title() == title@,
            r.spec_started_at() == started_at,
            r.spec_log() == store.log(),
            r.spec_store_always_ok() == store.always_ok(),
    {
        ServerStatus { title, started_at, store }
    }

    /// A fresh service over `store`, started at the system clock's current
    /// instant. The start time is whatever the clock returned; every later
    /// snapshot's time is at least it.
    pub fn start_now(title: String, store: S) -> (r: Self)
        ensures
            r.spec_title() == title@,
            0 <= r.spec_started_at(),
            r.spec_log() == store.log(),
            r.spec_store_always_ok() == store.always_ok(),
    {
        let started_at = now_micros();
        ServerStatus::new(title, started_at, store)
    }

    /// Reads the board as of `now`: one consistent snapshot of the store
    /// plus the server metadata. It fails only when the store does, and
    /// then with the uniform server error.
    pub fn get_board(&self, now: i64) -> (r: Result<Board, ServiceError>)
        requires
            self.spec_started_at() <= now,
        ensures
            match r {
                Ok(b) => snapshot_ok(
                    b,
                    self.spec_title(),
                    self.spec_started_at(),
                    now,
                    self.spec_log(),
                ) && b.wf(),
                Err(e) => e == ServiceError::StoreUnavailable,
            },
            self.spec_store_always_ok() ==> r is Ok,
    {
        match self.store.read_all() {
            Ok(messages) => Ok(build_board(&self.title, self.started_at, now, messages)),
            Err(e) => Err(service_error_of(&e)),
        }
    }

    /// Validates a submission and, exactly when it is valid, appends it to
    /// the log timestamped at `now`. A rejected or failed post leaves the
    /// log unchanged; validation precedes any store interaction.
    pub fn post_message(&mut self, msg: Message, now: i64) -> (r: Result<(), PostError>)
        ensures
            final(self).spec_title() == old(self).spec_title(),
            final(self).spec_started_at() == old(self).spec_started_at(),
            final(self).spec_store_always_ok() == old(self).spec_store_always_ok(),
            !valid_message(msg) ==> final(self).spec_log() == old(self).spec_log() && r
                == Err::<(), PostError>(spec_post_rejection(msg)),
            valid_message(msg) ==> match r {
                Ok(()) => final(self).spec_log() == old(self).spec_log().push(
                    stored_of(msg, now),
                ),
                Err(e) => e == PostError::StoreUnavailable && final(self).spec_log() == old(
                    self,
                ).spec_log(),
            },
            valid_message(msg) && old(self).spec_store_always_ok() ==> r is Ok,
    {
        match validate(&msg) {
            Err(ValidationError::InvalidUser) => Err(PostError::InvalidUser),
            Err(ValidationError::EmptyContent) => Err(PostError::EmptyContent),
            Ok(()) => {
                let stored = StoredMessage { time: now, user: msg.user, content: msg.content };
                match self.store.append(stored) {
                    Ok(()) => Ok(()),
                    Err(_) => Err(PostError::StoreUnavailable),
                }
            },
        }
    }

    /// Reads the board as of the system clock's current instant, clamped so
    /// that the snapshot time never precedes the server's start. The clock's
    /// value itself is not pinned; everything else of the snapshot is.
    pub fn get_board_now(&self) -> (r: Result<Board, ServiceError>)
        ensures
            match r {
                Ok(b) => b.title@ == self.spec_title() && b.started_at == self.spec_started_at()
                    && b.messages@ == self.spec_log() && b.wf(),
                Err(e) => e == ServiceError::StoreUnavailable,
            },
            self.spec_store_always_ok() ==> r is Ok,
    {
        let t = now_micros();
        let now = if t < self.started_at {
            self.started_at
        } else {
            t
        };
        self.get_board(now)
    }

    /// Posts a submission timestamped at the system clock's current
    /// instant. The assigned time is whatever the clock returned; the rest
    /// behaves exactly as `post_message`.
    pub fn post_message_now(&mut self, msg: Message) -> (r: Result<(), PostError>)
        ensures
            final(self).spec_title() == old(self).spec_title(),
            final(self).spec_started_at() == old(self).spec_started_at(),
            final(self).spec_store_always_ok() == old(self).spec_store_always_ok(),
            !valid_message(msg) ==> final(self).spec_log() == old(self).spec_log() && r
                == Err::<(), PostError>(spec_post_rejection(msg)),
            valid_message(msg) ==> match r {
                Ok(()) => exists|t: i64|
                    0 <= t && final(self).spec_log() == old(self).spec_log().push(
                        #[trigger] stored_of(msg, t),
                    ),
                Err(e) => e == PostError::StoreUnavailable && final(self).spec_log() == old(
                    self,
                ).spec_log(),
            },
            valid_message(msg) && old(self).spec_store_always_ok() ==> r is Ok,
    {
        let now = now_micros();
        let r = self.post_message(msg, now);
        proof {
            if valid_message(msg) && r is Ok {
                assert(self.spec_log() == old(self).spec_log().push(stored_of(msg, now)));
            }
        }
        r
    }
}

} // verus!

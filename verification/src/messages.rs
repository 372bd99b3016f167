use vstd::prelude::*;

verus! {

/// A message as submitted by a client: the poster's name and the text,
/// not yet timestamped.
pub struct Message {
    /// The user that posted this message
    pub user: String,
    /// The message posted
    pub content: String,
}

/// A message as held by the log store: the submitted fields plus the
/// server-assigned reception time, in microseconds since the Unix epoch.
pub struct StoredMessage {
    /// The time this message was received by the server
    pub time: i64,
    /// The user that posted this message
    pub user: String,
    /// The message posted
    pub content: String,
}

/// The stored form of a submitted message, timestamped at `time`.
pub open spec fn stored_of(msg: Message, time: i64) -> StoredMessage {
    StoredMessage { time: time, user: msg.user, content: msg.content }
}

impl Clone for Message {
    fn clone(&self) -> (r: Self)
        ensures
            r == *self,
    {
        Message { user: self.user.clone(), content: self.content.clone() }
    }
}

impl Clone for StoredMessage {
    fn clone(&self) -> (r: Self)
        ensures
            r == *self,
    {
        StoredMessage {
            time: self.time,
            user: self.user.clone(),
            content: self.content.clone(),
        }
    }
}

/// The longest accepted user name, in bytes of its UTF-8 encoding.
pub const MAX_USER_LEN: usize = 32;

/// A user name is accepted when it is non-empty and its UTF-8 encoding is
/// no longer than `MAX_USER_LEN` bytes.
pub open spec fn valid_user(user: Seq<char>) -> bool {
    0 < vstd::utf8::encode_utf8(user).len() <= MAX_USER_LEN
}

/// A submitted message is accepted when its user name is valid and its
/// text is non-empty.
pub open spec fn valid_message(msg: Message) -> bool {
    valid_user(msg.user@) && msg.content@.len() > 0
}

/// Rejections of a submitted message; they are decided before any store
/// interaction, so a rejected message has no side effect.
#[derive(Clone, Copy, Debug, PartialEq, Eq, Structural)]
pub enum ValidationError {
    /// The user name is empty or longer than `MAX_USER_LEN` bytes.
    InvalidUser,
    /// The message text is empty.
    EmptyContent,
}

/// The outcome `validate` owes for each submitted message: the user name
/// is checked first, then the text.
pub open spec fn spec_validate(msg: Message) -> Result<(), ValidationError> {
    if !valid_user(msg.user@) {
        Err(ValidationError::InvalidUser)
    } else if msg.content@.len() == 0 {
        Err(ValidationError::EmptyContent)
    } else {
        Ok(())
    }
}

pub fn is_valid_user(user: &str) -> (r: bool)
    ensures
        r == valid_user(user@),
{
    let n = user.as_bytes().len();
    0 < n && n <= MAX_USER_LEN
}

/// Checks a submitted message, reporting the first failure in the order
/// user name, then content; `Ok` exactly on valid messages.
pub fn validate(msg: &Message) -> (r: Result<(), ValidationError>)
    ensures
        r == spec_validate(*msg),
        r is Ok <==> valid_message(*msg),
{
    if !is_valid_user(msg.user.as_str()) {
        Err(ValidationError::InvalidUser)
    } else if msg.content.as_str().is_empty() {
        Err(ValidationError::EmptyContent)
    } else {
        Ok(())
    }
}

} // verus!

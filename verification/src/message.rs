//! Chat messages: what a client sends in, and what the room keeps.

use time::OffsetDateTime;
use vstd::prelude::*;

verus! {

#[verifier::external_type_specification]
#[verifier::external_body]
pub struct ExOffsetDateTime(OffsetDateTime);

/// `OffsetDateTime` is `Copy`: its `clone` hands back the same instant with
/// the same offset.
pub assume_specification[ <OffsetDateTime as Clone>::clone ](time: &OffsetDateTime) -> (copy:
    OffsetDateTime)
    ensures
        copy == *time,
;

/// A chat message as the room keeps it.
#[derive(Debug, Clone, PartialEq, Eq)]
pub struct Message {
    /// When the message was created.
    pub time: OffsetDateTime,
    /// Who the message came from.
    pub sender: String,
    /// The text of the message.
    pub body: String,
}

/// A chat message as a client hands it in, before it has a time.
///
/// Nothing is checked but that both fields hold some text: the text is
/// neither normalized nor cleared of control characters.
#[derive(Debug)]
pub struct IncomingMessage {
    /// Who the message came from.
    pub sender: String,
    /// The text of the message.
    pub body: String,
}

/// Reads the clock through `time::OffsetDateTime::now_utc`.
///
/// Nothing is claimed of the instant that comes back: it is whatever the
/// system clock holds at the call.
#[verifier::external_body]
pub(crate) fn current_time() -> (now: OffsetDateTime) {
    OffsetDateTime::now_utc()
}

impl IncomingMessage {
    /// Both fields hold at least one character.
    pub open spec fn valid(&self) -> bool {
        self.sender@.len() > 0 && self.body@.len() > 0
    }

    /// Whether the message has a sender and a text.
    pub fn is_valid(&self) -> (valid: bool)
        ensures
            valid == self.valid(),
    {
        !self.sender.as_str().is_empty() && !self.body.as_str().is_empty()
    }

    /// The message with `time` as its time of creation.
    pub fn stamped(self, time: OffsetDateTime) -> (message: Message)
        ensures
            message.time == time,
            message.sender == self.sender,
            message.body == self.body,
    {
        Message { time, sender: self.sender, body: self.body }
    }
}

impl vstd::std_specs::convert::FromSpecImpl<IncomingMessage> for Message {
    /// The time of the message is read from the clock, so the conversion is
    /// no function of the incoming message alone.
    open spec fn obeys_from_spec() -> bool {
        false
    }

    open spec fn from_spec(value: IncomingMessage) -> Message {
        arbitrary()
    }
}

impl From<IncomingMessage> for Message {
    /// The incoming message with the present instant as its time.
    fn from(value: IncomingMessage) -> (message: Message)
        ensures
            message.sender == value.sender,
            message.body == value.body,
    {
        value.stamped(current_time())
    }
}

} // verus!

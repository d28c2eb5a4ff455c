//! What the chat service does with a request once it holds the room.
//!
//! The room is shared by every handler of the service and stands behind one
//! lock, which a handler takes for a single call here and gives back right
//! after. The functions of this module are those calls: each takes the room
//! as the handler got it, `None` where the lock could not be had, and says
//! what the handler is to answer.

use crate::bounds::IndexBound;
use crate::chatroom::{contents, entry, requested, Chatroom};
use crate::error::ChatError;
use crate::message::{current_time, IncomingMessage, Message};
use std::sync::Arc;
use time::OffsetDateTime;
use vstd::prelude::*;
use vstd::string::StringExecFns;

verus! {

/// The status of an answer that carries what was asked for.
pub const STATUS_OK: u16 = 200;

/// The status of an answer to a message that was added.
pub const STATUS_CREATED: u16 = 201;

/// The status of an answer to a message that was refused.
pub const STATUS_BAD_REQUEST: u16 = 400;

/// The status of an answer that could not be given for now.
pub const STATUS_SERVICE_UNAVAILABLE: u16 = 503;

/// How many bytes a posted message may have at most.
pub const POST_BODY_LIMIT: usize = 4096;

/// The answer to a message that was posted.
#[derive(Debug)]
pub struct PostReply {
    /// The status of the answer.
    pub status: u16,
    /// The index of the message where it was added, else nothing.
    pub body: String,
}

/// The answer to a request for the messages of the room.
#[derive(Debug)]
pub struct HistoryReply {
    /// The status of the answer.
    pub status: u16,
    /// The messages that were found.
    pub messages: Vec<Arc<Message>>,
}

/// The character of a decimal digit.
pub open spec fn digit_char(digit: int) -> char {
    if digit == 0 {
        '0'
    } else if digit == 1 {
        '1'
    } else if digit == 2 {
        '2'
    } else if digit == 3 {
        '3'
    } else if digit == 4 {
        '4'
    } else if digit == 5 {
        '5'
    } else if digit == 6 {
        '6'
    } else if digit == 7 {
        '7'
    } else if digit == 8 {
        '8'
    } else {
        '9'
    }
}

/// A number in decimal digits, without leading zeros.
pub open spec fn decimal_text(n: nat) -> Seq<char>
    decreases n,
{
    if n < 10 {
        seq![digit_char(n as int)]
    } else {
        decimal_text(n / 10).push(digit_char((n % 10) as int))
    }
}

/// What adding a message does to a room that can be reached or not, and
/// what it reports: the index of the message, or why it was not added.
pub open spec fn append_outcome(
    room: Option<Seq<Message>>,
    incoming: IncomingMessage,
    now: OffsetDateTime,
) -> (Option<Seq<Message>>, Result<int, ChatError>) {
    if !incoming.valid() {
        (room, Err(ChatError::InvalidInput))
    } else {
        match room {
            None => (room, Err(ChatError::LockUnavailable)),
            Some(log) => (
                Some(log.push(Message { time: now, sender: incoming.sender, body: incoming.body })),
                Ok(log.len() as int),
            ),
        }
    }
}

/// What an append reports, its index as a number.
pub open spec fn reported(added: Result<usize, ChatError>) -> Result<int, ChatError> {
    match added {
        Ok(index) => Ok(index as int),
        Err(error) => Err(error),
    }
}

/// The text of one decimal digit.
fn digit_text(digit: usize) -> (text: &'static str)
    requires
        digit < 10,
    ensures
        text@ == seq![digit_char(digit as int)],
{
    proof {
        reveal_strlit("0");
        reveal_strlit("1");
        reveal_strlit("2");
        reveal_strlit("3");
        reveal_strlit("4");
        reveal_strlit("5");
        reveal_strlit("6");
        reveal_strlit("7");
        reveal_strlit("8");
        reveal_strlit("9");
    }
    let text = if digit == 0 {
        "0"
    } else if digit == 1 {
        "1"
    } else if digit == 2 {
        "2"
    } else if digit == 3 {
        "3"
    } else if digit == 4 {
        "4"
    } else if digit == 5 {
        "5"
    } else if digit == 6 {
        "6"
    } else if digit == 7 {
        "7"
    } else if digit == 8 {
        "8"
    } else {
        "9"
    };
    assert(text@ =~= seq![digit_char(digit as int)]);
    text
}

/// An index in decimal digits.
pub fn index_text(index: usize) -> (text: String)
    ensures
        text@ == decimal_text(index as nat),
    decreases index,
{
    if index < 10 {
        String::from_str(digit_text(index))
    } else {
        let mut text = index_text(index / 10);
        text.append(digit_text(index % 10));
        assert(text@ =~= decimal_text(index as nat));
        text
    }
}

/// Adds a message from `sender` with the text `body` and the time `now` to
/// the room, and returns its index.
///
/// A message without a sender or without a text is refused with
/// `InvalidInput`, before the room is looked at. A room that could not be
/// reached gives `LockUnavailable`. In both cases nothing is added.
pub fn append(room: Option<&mut Chatroom>, sender: String, body: String, now: OffsetDateTime) -> (added:
    Result<usize, ChatError>)
    ensures
        match room {
            Some(held) => (Some(final(held)@), reported(added)) == append_outcome(
                Some(held@),
                IncomingMessage { sender, body },
                now,
            ),
            None => (None::<Seq<Message>>, reported(added)) == append_outcome(
                None,
                IncomingMessage { sender, body },
                now,
            ),
        },
{
    let incoming = IncomingMessage { sender, body };
    if !incoming.is_valid() {
        return Err(ChatError::InvalidInput);
    }
    match room {
        None => Err(ChatError::LockUnavailable),
        Some(held) => Ok(held.add(incoming.stamped(now))),
    }
}

/// Looks up the message at `index`.
///
/// Gives `LockUnavailable` for a room that could not be reached, and
/// `NotFound` where the room holds no message at `index`.
pub fn get(room: Option<&Chatroom>, index: usize) -> (found: Result<Arc<Message>, ChatError>)
    ensures
        match room {
            Some(held) => match found {
                Ok(handle) => entry(held@, index as int) == Some(*handle),
                Err(error) => error == ChatError::NotFound && entry(held@, index as int).is_none(),
            },
            None => found == Err::<Arc<Message>, ChatError>(ChatError::LockUnavailable),
        },
{
    match room {
        None => Err(ChatError::LockUnavailable),
        Some(held) => match held.get(index) {
            Some(handle) => Ok(handle),
            None => Err(ChatError::NotFound),
        },
    }
}

/// Looks up the messages of the interval from `start` to `end`.
///
/// Gives `LockUnavailable` for a room that could not be reached, and
/// `InvalidRange` where the interval names no message of the room.
pub fn get_range(room: Option<&Chatroom>, start: IndexBound, end: IndexBound) -> (found: Result<
    Vec<Arc<Message>>,
    ChatError,
>)
    ensures
        match room {
            Some(held) => match found {
                Ok(handles) => requested(held@, start, end) == Some(contents(handles@)),
                Err(error) => error == ChatError::InvalidRange && requested(
                    held@,
                    start,
                    end,
                ).is_none(),
            },
            None => found == Err::<Vec<Arc<Message>>, ChatError>(ChatError::LockUnavailable),
        },
{
    match room {
        None => Err(ChatError::LockUnavailable),
        Some(held) => match held.try_get_range(start, end) {
            Some(handles) => Ok(handles),
            None => Err(ChatError::InvalidRange),
        },
    }
}

/// Answers a request for every message of the room.
///
/// The answer carries all messages, oldest first, with the status
/// `STATUS_OK`. Where there is none to give, because the room is empty or
/// could not be reached, it carries no message and the status
/// `STATUS_SERVICE_UNAVAILABLE`.
pub fn get_all(room: Option<&Chatroom>) -> (reply: HistoryReply)
    ensures
        match room {
            Some(held) if held@.len() > 0 => reply.status == STATUS_OK && contents(
                reply.messages@,
            ) == held@,
            _ => reply.status == STATUS_SERVICE_UNAVAILABLE && reply.messages@.len() == 0,
        },
{
    match get_range(room, IndexBound::Unbounded, IndexBound::Unbounded) {
        Ok(messages) => {
            proof {
                let log = room.unwrap()@;
                assert(log.subrange(0, log.len() as int) =~= log);
            }
            HistoryReply { status: STATUS_OK, messages }
        },
        Err(_) => HistoryReply { status: STATUS_SERVICE_UNAVAILABLE, messages: Vec::new() },
    }
}

/// What posting a message that is stamped with `now` does to the room, and
/// the status and the text of the answer.
pub open spec fn post_outcome(
    room: Option<Seq<Message>>,
    incoming: IncomingMessage,
    now: OffsetDateTime,
) -> (Option<Seq<Message>>, u16, Seq<char>) {
    let (after, added) = append_outcome(room, incoming, now);
    match added {
        Ok(index) => (after, STATUS_CREATED, decimal_text(index as nat)),
        Err(ChatError::InvalidInput) => (after, STATUS_BAD_REQUEST, Seq::empty()),
        Err(_) => (after, STATUS_SERVICE_UNAVAILABLE, Seq::empty()),
    }
}

/// Answers a message that was posted at the time `now`.
///
/// A message with a sender and a text is added to the room; the answer has
/// the status `STATUS_CREATED` and holds the index of the message in
/// decimal digits. A message that lacks either is refused with
/// `STATUS_BAD_REQUEST`, and a room that could not be reached gives
/// `STATUS_SERVICE_UNAVAILABLE`; both answers are empty and leave the room
/// as it was.
pub fn post_at(room: Option<&mut Chatroom>, message: IncomingMessage, now: OffsetDateTime) -> (reply:
    PostReply)
    ensures
        match room {
            Some(held) => (Some(final(held)@), reply.status, reply.body@) == post_outcome(
                Some(held@),
                message,
                now,
            ),
            None => (None::<Seq<Message>>, reply.status, reply.body@) == post_outcome(
                None,
                message,
                now,
            ),
        },
{
    match append(room, message.sender, message.body, now) {
        Ok(index) => PostReply { status: STATUS_CREATED, body: index_text(index) },
        Err(ChatError::InvalidInput) => PostReply {
            status: STATUS_BAD_REQUEST,
            body: String::new(),
        },
        Err(_) => PostReply { status: STATUS_SERVICE_UNAVAILABLE, body: String::new() },
    }
}

/// Answers a message that was posted now: as `post_at` does, with the time
/// that the clock gives at the call. The status and the text of the answer
/// do not depend on that time; the message that is added carries it.
pub fn post(room: Option<&mut Chatroom>, message: IncomingMessage) -> (reply: PostReply)
    ensures
        match room {
            Some(held) => {
                let outcome = post_outcome(Some(held@), message, arbitrary());
                &&& reply.status == outcome.1
                &&& reply.body@ == outcome.2
                &&& if message.valid() {
                    &&& final(held)@ == held@.push(final(held)@.last())
                    &&& final(held)@.last().sender == message.sender
                    &&& final(held)@.last().body == message.body
                } else {
                    final(held)@ == held@
                }
            },
            None => {
                let outcome = post_outcome(None, message, arbitrary());
                reply.status == outcome.1 && reply.body@ == outcome.2
            },
        },
{
    let now = current_time();
    post_at(room, message, now)
}

} // verus!

//! The room: an append-only log of messages.
//!
//! A message gets the next free index when it is added and keeps it for
//! good: the log only grows, and nothing in it moves or goes away. What a
//! lookup hands out are further handles to the messages that the log holds,
//! not copies of them.

use crate::bounds::{end_index, first_index, is_satisfiable, resolve, IndexBound};
use crate::message::Message;
use std::sync::Arc;
use vstd::prelude::*;

verus! {

/// A room that holds messages in the order in which they were added.
#[derive(Debug)]
pub struct Chatroom {
    /// The messages, oldest first.
    messages: Vec<Arc<Message>>,
}

/// The messages behind a sequence of handles.
pub open spec fn contents(handles: Seq<Arc<Message>>) -> Seq<Message> {
    Seq::new(handles.len(), |i: int| *handles[i])
}

/// The messages that a request for the interval from `start` to `end` names
/// in `log`: the entries of the resolved interval in their order, or `None`
/// where the request names no entry.
pub open spec fn requested(log: Seq<Message>, start: IndexBound, end: IndexBound) -> Option<
    Seq<Message>,
> {
    if is_satisfiable(start, end, log.len() as int) {
        Some(log.subrange(first_index(start), end_index(end, log.len() as int)))
    } else {
        None
    }
}

/// The message at `index` in `log`, if the log reaches that far.
pub open spec fn entry(log: Seq<Message>, index: int) -> Option<Message> {
    if 0 <= index < log.len() {
        Some(log[index])
    } else {
        None
    }
}

/// The messages behind the handles that a lookup of a range returned.
pub open spec fn found_messages(found: Option<Vec<Arc<Message>>>) -> Option<Seq<Message>> {
    match found {
        Some(handles) => Some(contents(handles@)),
        None => None,
    }
}

/// The message behind the handle that a lookup returned.
pub open spec fn found_message(found: Option<Arc<Message>>) -> Option<Message> {
    match found {
        Some(handle) => Some(*handle),
        None => None,
    }
}

/// Makes another handle to the message behind `handle`, through
/// `Arc::clone`: the new handle shares the message and copies nothing of it.
#[verifier::external_body]
fn share(handle: &Arc<Message>) -> (shared: Arc<Message>)
    ensures
        shared == *handle,
{
    Arc::clone(handle)
}

impl View for Chatroom {
    type V = Seq<Message>;

    /// The messages of the room, oldest first.
    closed spec fn view(&self) -> Seq<Message> {
        contents(self.messages@)
    }
}

impl Default for Chatroom {
    fn default() -> (room: Chatroom)
        ensures
            room@ == Seq::<Message>::empty(),
    {
        Chatroom::new()
    }
}

impl Chatroom {
    /// A room without messages.
    pub fn new() -> (room: Chatroom)
        ensures
            room@ == Seq::<Message>::empty(),
    {
        let room = Chatroom { messages: Vec::new() };
        assert(room@ =~= Seq::<Message>::empty());
        room
    }

    /// Appends a message to the room.
    ///
    /// Returns the index that the message was placed at: the number of
    /// messages that the room held before.
    pub fn add(&mut self, message: Message) -> (index: usize)
        ensures
            final(self)@ == old(self)@.push(message),
            index == old(self)@.len(),
    {
        let index: usize = self.messages.len();
        self.messages.push(Arc::new(message));
        assert(self@ =~= old(self)@.push(message));
        index
    }

    /// Retrieves a message from the room.
    ///
    /// Returns `None` when the room holds no message at `index`.
    pub fn get(&self, index: usize) -> (found: Option<Arc<Message>>)
        ensures
            found_message(found) == entry(self@, index as int),
    {
        if index < self.messages.len() {
            Some(share(&self.messages[index]))
        } else {
            None
        }
    }

    /// Retrieves the messages of the interval from `start` to `end`.
    ///
    /// An end beyond the last message is lowered to the length of the room.
    /// Returns `None` when no message is left in the interval, be it empty
    /// as requested, reversed, or wholly beyond the room.
    pub fn try_get_range(&self, start: IndexBound, end: IndexBound) -> (found: Option<
        Vec<Arc<Message>>,
    >)
        ensures
            found_messages(found) == requested(self@, start, end),
    {
        match resolve(start, end, self.messages.len()) {
            None => None,
            Some((first, stop)) => {
                let mut handles: Vec<Arc<Message>> = Vec::new();
                let mut next: usize = first;
                while next < stop
                    invariant
                        first <= next <= stop <= self.messages.len(),
                        handles@.len() == next - first,
                        forall|k: int|
                            0 <= k < handles@.len() ==> *handles@[k] == *self.messages@[first + k],
                    decreases stop - next,
                {
                    handles.push(share(&self.messages[next]));
                    next = next + 1;
                }
                assert(contents(handles@) =~= self@.subrange(first as int, stop as int));
                Some(handles)
            },
        }
    }
}

} // verus!

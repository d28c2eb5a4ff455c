//! The relay that streams an echoed request back to its sender.
//!
//! One task produces the chunks of the answer and a bounded channel carries
//! them to the transport, which flushes each as it arrives. The relay is the
//! producer's rule book: it says which chunk goes next and when the stream
//! ends, and leaves the sending and the reading to its driver. The driver
//! performs the action that the relay names, reports what came of it as an
//! event, and gets the next action in return.
//!
//! The stream starts with the status line, goes on with one chunk for each
//! header and a blank line, and ends with the chunks of the inbound body in
//! the order in which they arrive. The relay names a new chunk only after
//! the channel has taken the one before, so a slow transport holds the
//! producer back. A send that fails aborts the transfer.

use crate::error::ChatError;
use vstd::prelude::*;

verus! {

/// How many chunks the channel between the producer and the transport holds
/// before the producer has to wait.
pub const RELAY_CAPACITY: usize = 16;

/// Where a relay stands.
#[derive(Clone, Copy, Debug, PartialEq, Eq, Structural)]
pub enum RelayPhase {
    /// Nothing was handed out yet.
    Open,
    /// A chunk was handed out and the channel has not confirmed it yet.
    Sending,
    /// The relay waits for the inbound body.
    Reading,
    /// The stream ended in order: the producer's side is to be closed.
    Finished,
    /// The transfer was aborted.
    Aborted,
}

/// What the driver reports to the relay.
#[derive(Debug)]
pub enum RelayEvent {
    /// The channel took the chunk that was handed out last.
    Sent,
    /// The channel refused the chunk: the consumer is gone.
    SendFailed,
    /// The inbound body yielded a chunk.
    Body(Vec<u8>),
    /// The inbound body has ended, or could not be read any further.
    BodyEnded,
}

/// What the relay asks of the driver.
#[derive(Debug)]
pub enum RelayAction {
    /// Send this chunk into the channel and report `Sent` or `SendFailed`.
    Send(Vec<u8>),
    /// Wait for the inbound body and report `Body` or `BodyEnded`.
    ReadBody,
    /// Close the producer's side: the stream is complete.
    Close,
    /// Give the transfer up.
    Abort,
}

/// An event, with the bytes of its chunk.
pub enum EventView {
    Sent,
    SendFailed,
    Body(Seq<u8>),
    BodyEnded,
}

/// An action, with the bytes of its chunk.
pub enum ActionView {
    Send(Seq<u8>),
    ReadBody,
    Close,
    Abort,
}

impl View for RelayEvent {
    type V = EventView;

    open spec fn view(&self) -> EventView {
        match self {
            RelayEvent::Sent => EventView::Sent,
            RelayEvent::SendFailed => EventView::SendFailed,
            RelayEvent::Body(chunk) => EventView::Body(chunk@),
            RelayEvent::BodyEnded => EventView::BodyEnded,
        }
    }
}

impl View for RelayAction {
    type V = ActionView;

    open spec fn view(&self) -> ActionView {
        match self {
            RelayAction::Send(chunk) => ActionView::Send(chunk@),
            RelayAction::ReadBody => ActionView::ReadBody,
            RelayAction::Close => ActionView::Close,
            RelayAction::Abort => ActionView::Abort,
        }
    }
}

/// The bytes of the blank line that parts the headers from the body.
pub open spec fn blank_line() -> Seq<u8> {
    seq![13u8, 10u8]
}

/// The chunks that go before the body: the status line, the headers in
/// their order, and the blank line.
pub open spec fn preamble_of(status_line: Seq<u8>, headers: Seq<Seq<u8>>) -> Seq<Seq<u8>> {
    seq![status_line] + headers + seq![blank_line()]
}

/// A relay as the contracts see it.
pub struct RelayView {
    /// The chunks that go before the body.
    pub preamble: Seq<Seq<u8>>,
    /// How many chunks of the preamble were handed out.
    pub handed: nat,
    /// Where the relay stands.
    pub phase: RelayPhase,
}

impl RelayView {
    /// A relay that was not started yet.
    pub open spec fn opened(status_line: Seq<u8>, headers: Seq<Seq<u8>>) -> RelayView {
        RelayView { preamble: preamble_of(status_line, headers), handed: 0, phase: RelayPhase::Open }
    }

    /// The relay is closed: it hands out no further chunk.
    pub open spec fn is_closed(self) -> bool {
        self.phase == RelayPhase::Finished || self.phase == RelayPhase::Aborted
    }

    /// How the transfer ended, once the relay is closed: in order, or
    /// aborted.
    pub open spec fn outcome(self) -> Option<Result<(), ChatError>> {
        match self.phase {
            RelayPhase::Finished => Some(Ok(())),
            RelayPhase::Aborted => Some(Err(ChatError::StreamAborted)),
            _ => None,
        }
    }

    /// The relay after it was given up.
    pub open spec fn aborted(self) -> RelayView {
        RelayView { phase: RelayPhase::Aborted, ..self }
    }

    /// What starting does to the relay, and the action that it answers with.
    ///
    /// An open relay hands out the first chunk of its preamble. Starting a
    /// relay a second time aborts it; a closed relay stays as it is.
    pub open spec fn start(self) -> (RelayView, ActionView) {
        match self.phase {
            RelayPhase::Open => if self.preamble.len() > 0 {
                (
                    RelayView { handed: 1, phase: RelayPhase::Sending, ..self },
                    ActionView::Send(self.preamble[0]),
                )
            } else {
                (RelayView { phase: RelayPhase::Reading, ..self }, ActionView::ReadBody)
            },
            RelayPhase::Finished => (self, ActionView::Close),
            _ => (self.aborted(), ActionView::Abort),
        }
    }

    /// What an event does to the relay, and the action that it answers with.
    ///
    /// While a chunk is on its way only its confirmation leads on: to the
    /// next chunk of the preamble, or to the body once the preamble is out.
    /// While the relay waits for the body, a chunk of the body is handed on
    /// and the end of the body finishes the stream. An event that the relay
    /// does not wait for, a failed send among them, aborts the transfer. A
    /// closed relay stays as it is.
    pub open spec fn step(self, event: EventView) -> (RelayView, ActionView) {
        match self.phase {
            RelayPhase::Sending => match event {
                EventView::Sent => if self.handed < self.preamble.len() {
                    (
                        RelayView { handed: self.handed + 1, ..self },
                        ActionView::Send(self.preamble[self.handed as int]),
                    )
                } else {
                    (RelayView { phase: RelayPhase::Reading, ..self }, ActionView::ReadBody)
                },
                _ => (self.aborted(), ActionView::Abort),
            },
            RelayPhase::Reading => match event {
                EventView::Body(chunk) => (
                    RelayView { phase: RelayPhase::Sending, ..self },
                    ActionView::Send(chunk),
                ),
                EventView::BodyEnded => (
                    RelayView { phase: RelayPhase::Finished, ..self },
                    ActionView::Close,
                ),
                _ => (self.aborted(), ActionView::Abort),
            },
            RelayPhase::Open => (self.aborted(), ActionView::Abort),
            RelayPhase::Finished => (self, ActionView::Close),
            RelayPhase::Aborted => (self, ActionView::Abort),
        }
    }
}

/// The producer's side of the relay for one answer.
#[derive(Debug)]
pub struct StreamRelay {
    /// The chunks that go before the body.
    preamble: Vec<Vec<u8>>,
    /// How many chunks of the preamble were handed out.
    handed: usize,
    /// Where the relay stands.
    phase: RelayPhase,
}

/// The chunks of a vector of chunks.
pub open spec fn chunks_of(chunks: Seq<Vec<u8>>) -> Seq<Seq<u8>> {
    Seq::new(chunks.len(), |i: int| chunks[i]@)
}

/// A copy of a chunk.
fn copy_chunk(chunk: &Vec<u8>) -> (copy: Vec<u8>)
    ensures
        copy@ == chunk@,
{
    let mut copy: Vec<u8> = Vec::new();
    let mut i: usize = 0;
    while i < chunk.len()
        invariant
            i <= chunk.len(),
            copy@ == chunk@.take(i as int),
        decreases chunk.len() - i,
    {
        copy.push(chunk[i]);
        i = i + 1;
        assert(copy@ =~= chunk@.take(i as int));
    }
    assert(chunk@.take(chunk@.len() as int) =~= chunk@);
    copy
}

impl View for StreamRelay {
    type V = RelayView;

    closed spec fn view(&self) -> RelayView {
        RelayView {
            preamble: chunks_of(self.preamble@),
            handed: self.handed as nat,
            phase: self.phase,
        }
    }
}

impl StreamRelay {
    /// The relay keeps count of no more chunks than its preamble holds.
    #[verifier::type_invariant]
    spec fn counts_within_preamble(&self) -> bool {
        self.handed <= self.preamble@.len()
    }

    /// A relay for an answer that starts with `status_line` and `headers`,
    /// each header being one chunk.
    pub fn new(status_line: Vec<u8>, headers: Vec<Vec<u8>>) -> (relay: StreamRelay)
        ensures
            relay@ == RelayView::opened(status_line@, chunks_of(headers@)),
    {
        let mut preamble: Vec<Vec<u8>> = Vec::new();
        preamble.push(status_line);
        let mut i: usize = 0;
        while i < headers.len()
            invariant
                i <= headers.len(),
                preamble@.len() == i + 1,
                preamble@[0]@ == status_line@,
                forall|k: int| 0 <= k < i ==> (#[trigger] preamble@[k + 1])@ == headers@[k]@,
            decreases headers.len() - i,
        {
            preamble.push(copy_chunk(&headers[i]));
            i = i + 1;
        }
        let mut separator: Vec<u8> = Vec::new();
        separator.push(13u8);
        separator.push(10u8);
        assert(separator@ =~= blank_line());
        preamble.push(separator);
        proof {
            let expected = preamble_of(status_line@, chunks_of(headers@));
            assert(expected.len() == headers@.len() + 2);
            assert forall|k: int| 0 <= k < expected.len() implies chunks_of(preamble@)[k]
                == expected[k] by {
                if 1 <= k <= headers@.len() {
                    assert(preamble@[(k - 1) + 1]@ == headers@[k - 1]@);
                }
            }
            assert(chunks_of(preamble@) =~= expected);
        }
        StreamRelay { preamble, handed: 0, phase: RelayPhase::Open }
    }

    /// Where the relay stands.
    pub fn phase(&self) -> (phase: RelayPhase)
        ensures
            phase == self@.phase,
    {
        self.phase
    }

    /// Whether the relay is closed, in order or by an abort.
    pub fn is_closed(&self) -> (closed: bool)
        ensures
            closed == self@.is_closed(),
    {
        match self.phase {
            RelayPhase::Finished => true,
            RelayPhase::Aborted => true,
            _ => false,
        }
    }

    /// How the transfer ended: nothing while the relay is not closed, then
    /// `Ok` for a stream that ended in order and `StreamAborted` for one
    /// that was given up.
    pub fn outcome(&self) -> (outcome: Option<Result<(), ChatError>>)
        ensures
            outcome == self@.outcome(),
    {
        match self.phase {
            RelayPhase::Finished => Some(Ok(())),
            RelayPhase::Aborted => Some(Err(ChatError::StreamAborted)),
            _ => None,
        }
    }

    /// Starts the relay and names the first action.
    pub fn start(&mut self) -> (action: RelayAction)
        ensures
            (final(self)@, action@) == old(self)@.start(),
    {
        proof {
            use_type_invariant(&*self);
        }
        match self.phase {
            RelayPhase::Open => {
                if self.preamble.len() > 0 {
                    let chunk = copy_chunk(&self.preamble[0]);
                    self.handed = 1;
                    self.phase = RelayPhase::Sending;
                    RelayAction::Send(chunk)
                } else {
                    self.phase = RelayPhase::Reading;
                    RelayAction::ReadBody
                }
            },
            RelayPhase::Finished => RelayAction::Close,
            _ => {
                self.phase = RelayPhase::Aborted;
                RelayAction::Abort
            },
        }
    }

    /// Takes what came of the last action and names the next one.
    pub fn step(&mut self, event: RelayEvent) -> (action: RelayAction)
        ensures
            (final(self)@, action@) == old(self)@.step(event@),
    {
        proof {
            use_type_invariant(&*self);
        }
        match self.phase {
            RelayPhase::Sending => match event {
                RelayEvent::Sent => {
                    if self.handed < self.preamble.len() {
                        let chunk = copy_chunk(&self.preamble[self.handed]);
                        self.handed = self.handed + 1;
                        RelayAction::Send(chunk)
                    } else {
                        self.phase = RelayPhase::Reading;
                        RelayAction::ReadBody
                    }
                },
                _ => {
                    self.phase = RelayPhase::Aborted;
                    RelayAction::Abort
                },
            },
            RelayPhase::Reading => match event {
                RelayEvent::Body(chunk) => {
                    self.phase = RelayPhase::Sending;
                    RelayAction::Send(chunk)
                },
                RelayEvent::BodyEnded => {
                    self.phase = RelayPhase::Finished;
                    RelayAction::Close
                },
                _ => {
                    self.phase = RelayPhase::Aborted;
                    RelayAction::Abort
                },
            },
            RelayPhase::Open => {
                self.phase = RelayPhase::Aborted;
                RelayAction::Abort
            },
            RelayPhase::Finished => RelayAction::Close,
            RelayPhase::Aborted => RelayAction::Abort,
        }
    }
}

} // verus!

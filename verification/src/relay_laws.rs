//! What holds of every run of a relay, whatever its driver reports.

use crate::relay::{ActionView, EventView, RelayPhase, RelayView};
use vstd::prelude::*;

verus! {

/// The relay after a started relay took the events of `events` in their
/// order, and the actions that it named: the first one on being started,
/// then one for each event.
pub open spec fn run(relay: RelayView, events: Seq<EventView>) -> (RelayView, Seq<ActionView>)
    decreases events.len(),
{
    if events.len() == 0 {
        let (started, first) = relay.start();
        (started, seq![first])
    } else {
        let (before, actions) = run(relay, events.drop_last());
        let (after, action) = before.step(events.last());
        (after, actions.push(action))
    }
}

/// The chunks that the actions of `actions` ask to send, in their order.
pub open spec fn sent_chunks(actions: Seq<ActionView>) -> Seq<Seq<u8>>
    decreases actions.len(),
{
    if actions.len() == 0 {
        Seq::empty()
    } else {
        match actions.last() {
            ActionView::Send(chunk) => sent_chunks(actions.drop_last()).push(chunk),
            _ => sent_chunks(actions.drop_last()),
        }
    }
}

/// The chunks of the inbound body that the events of `events` report, in
/// their order.
pub open spec fn body_chunks(events: Seq<EventView>) -> Seq<Seq<u8>>
    decreases events.len(),
{
    if events.len() == 0 {
        Seq::empty()
    } else {
        match events.last() {
            EventView::Body(chunk) => body_chunks(events.drop_last()).push(chunk),
            _ => body_chunks(events.drop_last()),
        }
    }
}

/// How many chunks the channel has confirmed in `events`.
pub open spec fn confirmed(events: Seq<EventView>) -> nat
    decreases events.len(),
{
    if events.len() == 0 {
        0
    } else {
        match events.last() {
            EventView::Sent => confirmed(events.drop_last()) + 1,
            _ => confirmed(events.drop_last()),
        }
    }
}

/// The events of a transfer that meets no failure: a confirmation for each
/// chunk of a preamble of `preamble` chunks, then each chunk of `body` with
/// its confirmation, then the end of the body.
pub open spec fn smooth_transfer(preamble: nat, body: Seq<Seq<u8>>) -> Seq<EventView> {
    smooth_start(preamble, body).push(EventView::BodyEnded)
}

/// The events of a transfer that meets no failure, up to the confirmation
/// of the last chunk of `body`.
pub open spec fn smooth_start(preamble: nat, body: Seq<Seq<u8>>) -> Seq<EventView>
    decreases body.len(),
{
    if body.len() == 0 {
        Seq::new(preamble, |i: int| EventView::Sent)
    } else {
        smooth_start(preamble, body.drop_last()).push(EventView::Body(body.last())).push(
            EventView::Sent,
        )
    }
}

/// What the induction over the events of a run carries along.
spec fn run_invariant(relay: RelayView, events: Seq<EventView>) -> bool {
    let (after, actions) = run(relay, events);
    let sent = sent_chunks(actions);
    let body = body_chunks(events);
    &&& after.preamble == relay.preamble
    &&& after.handed <= relay.preamble.len()
    &&& after.phase != RelayPhase::Open
    &&& sent.is_prefix_of(relay.preamble + body)
    &&& sent.len() <= confirmed(events) + 1
    &&& match after.phase {
        RelayPhase::Sending => {
            &&& sent.len() == confirmed(events) + 1
            &&& {
                ||| (sent == relay.preamble.take(after.handed as int) && body.len() == 0)
                ||| (after.handed == relay.preamble.len() && sent == relay.preamble + body)
            }
        },
        RelayPhase::Reading => {
            &&& sent.len() == confirmed(events)
            &&& after.handed == relay.preamble.len()
            &&& sent == relay.preamble + body
        },
        _ => true,
    }
}

proof fn lemma_run_invariant(relay: RelayView, events: Seq<EventView>)
    requires
        relay.phase == RelayPhase::Open,
        relay.handed == 0,
    ensures
        run_invariant(relay, events),
    decreases events.len(),
{
    let (after, actions) = run(relay, events);
    let sent = sent_chunks(actions);
    let body = body_chunks(events);
    if events.len() == 0 {
        let (started, first) = relay.start();
        assert(actions == seq![first]);
        assert(actions.drop_last() =~= Seq::<ActionView>::empty());
        assert(sent_chunks(actions.drop_last()) =~= Seq::<Seq<u8>>::empty());
        if relay.preamble.len() > 0 {
            assert(sent =~= relay.preamble.take(1));
            assert(sent.is_prefix_of(relay.preamble + body));
        } else {
            assert(sent =~= relay.preamble + body);
        }
    } else {
        let earlier = events.drop_last();
        lemma_run_invariant(relay, earlier);
        let (before, earlier_actions) = run(relay, earlier);
        let earlier_sent = sent_chunks(earlier_actions);
        let earlier_body = body_chunks(earlier);
        let (stepped, action) = before.step(events.last());
        assert(actions == earlier_actions.push(action));
        assert(actions.drop_last() =~= earlier_actions);
        assert(earlier_sent.is_prefix_of(relay.preamble + body)) by {
            assert(earlier_sent.is_prefix_of(relay.preamble + earlier_body));
            match events.last() {
                EventView::Body(chunk) => {
                    assert((relay.preamble + body).take(
                        (relay.preamble + earlier_body).len() as int,
                    ) =~= relay.preamble + earlier_body);
                    assert forall|i: int| 0 <= i < earlier_sent.len() implies earlier_sent[i] == (
                    relay.preamble + body)[i] by {
                        assert(earlier_sent[i] == (relay.preamble + earlier_body)[i]);
                    }
                },
                _ => {},
            }
        }
        match before.phase {
            RelayPhase::Sending => match events.last() {
                EventView::Sent => {
                    if before.handed < before.preamble.len() {
                        assert(earlier_body.len() == 0);
                        assert(sent =~= relay.preamble.take(before.handed as int + 1));
                        assert(sent.is_prefix_of(relay.preamble + body));
                    } else {
                        assert(earlier_sent.len() >= relay.preamble.len()) by {
                            if earlier_sent == relay.preamble.take(before.handed as int) {
                            }
                        }
                        assert(earlier_sent =~= relay.preamble + earlier_body) by {
                            if earlier_sent == relay.preamble.take(before.handed as int)
                                && earlier_body.len() == 0 {
                                assert(relay.preamble.take(relay.preamble.len() as int)
                                    =~= relay.preamble);
                            }
                        }
                    }
                },
                _ => {},
            },
            RelayPhase::Reading => match events.last() {
                EventView::Body(chunk) => {
                    assert(sent =~= relay.preamble + body);
                },
                _ => {},
            },
            _ => {},
        }
    }
}

/// The chunks that a relay asks to send are, in every run, the beginning of
/// one stream: its preamble, then the chunks of the body in the order in
/// which they were reported. So the status line goes first, and the blank
/// line stands between the headers and the body.
pub proof fn law_chunks_keep_their_order(
    status_line: Seq<u8>,
    headers: Seq<Seq<u8>>,
    events: Seq<EventView>,
)
    ensures
        sent_chunks(run(RelayView::opened(status_line, headers), events).1).is_prefix_of(
            crate::relay::preamble_of(status_line, headers) + body_chunks(events),
        ),
{
    lemma_run_invariant(RelayView::opened(status_line, headers), events);
}

/// A relay never has more than one chunk on its way: it asks to send a
/// further chunk only after the channel has confirmed the one before.
pub proof fn law_one_chunk_on_its_way(
    status_line: Seq<u8>,
    headers: Seq<Seq<u8>>,
    events: Seq<EventView>,
)
    ensures
        sent_chunks(run(RelayView::opened(status_line, headers), events).1).len() <= confirmed(
            events,
        ) + 1,
{
    lemma_run_invariant(RelayView::opened(status_line, headers), events);
}

/// A send that fails aborts the transfer, wherever the relay stands, unless
/// the stream had ended in order before.
pub proof fn law_failed_send_aborts(relay: RelayView)
    requires
        relay.phase != RelayPhase::Finished,
    ensures
        relay.step(EventView::SendFailed) == (relay.aborted(), ActionView::Abort),
{
}

/// A closed relay stays closed and asks for no further chunk, whatever it
/// is told.
pub proof fn law_closed_relay_stays_closed(relay: RelayView, event: EventView)
    requires
        relay.is_closed(),
    ensures
        relay.step(event).0 == relay,
        relay.start().0 == relay,
        !(relay.step(event).1 is Send),
        !(relay.start().1 is Send),
{
}

proof fn lemma_smooth_start(relay: RelayView, body: Seq<Seq<u8>>)
    requires
        relay.phase == RelayPhase::Open,
        relay.handed == 0,
        relay.preamble.len() > 0,
    ensures
        ({
            let events = smooth_start(relay.preamble.len(), body);
            let (after, actions) = run(relay, events);
            &&& after == RelayView { phase: RelayPhase::Reading, handed: relay.preamble.len(), ..relay }
            &&& actions.last() == ActionView::ReadBody
            &&& sent_chunks(actions) == relay.preamble + body
            &&& body_chunks(events) == body
        }),
    decreases body.len(),
{
    let confirmations = relay.preamble.len();
    if body.len() == 0 {
        let events = Seq::new(confirmations, |i: int| EventView::Sent);
        let earlier = Seq::new((confirmations - 1) as nat, |i: int| EventView::Sent);
        lemma_only_confirmations(relay, (confirmations - 1) as nat);
        assert(events.drop_last() =~= earlier);
        let (before, earlier_actions) = run(relay, earlier);
        let (after, actions) = run(relay, events);
        assert(actions.drop_last() =~= earlier_actions);
        assert(relay.preamble.take(relay.preamble.len() as int) =~= relay.preamble);
        assert(relay.preamble + body =~= relay.preamble);
    } else {
        lemma_smooth_start(relay, body.drop_last());
        let earlier = smooth_start(confirmations, body.drop_last());
        let reported = earlier.push(EventView::Body(body.last()));
        let events = reported.push(EventView::Sent);
        assert(reported.drop_last() =~= earlier);
        assert(events.drop_last() =~= reported);
        let (before, earlier_actions) = run(relay, earlier);
        let (waiting, waiting_actions) = run(relay, reported);
        let (after, actions) = run(relay, events);
        assert(waiting_actions.drop_last() =~= earlier_actions);
        assert(actions.drop_last() =~= waiting_actions);
        assert(sent_chunks(waiting_actions) =~= relay.preamble + body) by {
            assert(body.drop_last().push(body.last()) =~= body);
        }
        assert(body_chunks(reported) =~= body) by {
            assert(body.drop_last().push(body.last()) =~= body);
        }
    }
}

/// A transfer that meets no failure ends in order: the relay has asked to
/// send the status line, every header, the blank line and every chunk of
/// the body, in that order and nothing else, and asks last for the
/// producer's side to be closed.
pub proof fn law_smooth_transfer_completes(
    status_line: Seq<u8>,
    headers: Seq<Seq<u8>>,
    body: Seq<Seq<u8>>,
)
    ensures
        ({
            let preamble = crate::relay::preamble_of(status_line, headers);
            let (after, actions) = run(
                RelayView::opened(status_line, headers),
                smooth_transfer(preamble.len(), body),
            );
            &&& after.phase == RelayPhase::Finished
            &&& actions.last() == ActionView::Close
            &&& sent_chunks(actions) == seq![status_line] + headers + seq![
                crate::relay::blank_line(),
            ] + body
        }),
{
    let relay = RelayView::opened(status_line, headers);
    lemma_smooth_start(relay, body);
    let started = smooth_start(relay.preamble.len(), body);
    let events = smooth_transfer(relay.preamble.len(), body);
    assert(events.drop_last() =~= started);
    let (before, earlier_actions) = run(relay, started);
    let (after, actions) = run(relay, events);
    assert(actions.drop_last() =~= earlier_actions);
}

proof fn lemma_only_confirmations(relay: RelayView, confirmations: nat)
    requires
        relay.phase == RelayPhase::Open,
        relay.handed == 0,
        confirmations < relay.preamble.len(),
    ensures
        ({
            let events = Seq::new(confirmations, |i: int| EventView::Sent);
            let (after, actions) = run(relay, events);
            &&& after.phase == RelayPhase::Sending
            &&& after.handed == confirmations + 1
            &&& after.preamble == relay.preamble
            &&& sent_chunks(actions) == relay.preamble.take(confirmations as int + 1)
            &&& body_chunks(events) == Seq::<Seq<u8>>::empty()
        }),
    decreases confirmations,
{
    let events = Seq::new(confirmations, |i: int| EventView::Sent);
    let (after, actions) = run(relay, events);
    if confirmations == 0 {
        let (started, first) = relay.start();
        assert(actions == seq![first]);
        assert(actions.drop_last() =~= Seq::<ActionView>::empty());
        assert(sent_chunks(actions.drop_last()) =~= Seq::<Seq<u8>>::empty());
        assert(sent_chunks(actions) =~= relay.preamble.take(1));
    } else {
        let fewer = (confirmations - 1) as nat;
        lemma_only_confirmations(relay, fewer);
        let earlier = Seq::new(fewer, |i: int| EventView::Sent);
        assert(events.drop_last() =~= earlier);
        let (before, earlier_actions) = run(relay, earlier);
        assert(actions.drop_last() =~= earlier_actions);
        assert(sent_chunks(actions) =~= relay.preamble.take(confirmations as int + 1));
    }
}

} // verus!

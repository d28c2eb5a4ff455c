//! What holds of the log whatever it contains, stated over the models that
//! the contracts of the room use.

use crate::bounds::{is_satisfiable, IndexBound};
use crate::chatroom::{contents, entry, found_messages, requested};
use crate::message::Message;
use std::sync::Arc;
use vstd::prelude::*;

verus! {

/// The log after the messages of `added` were appended to `log` one by one,
/// in their order.
pub open spec fn log_after(log: Seq<Message>, added: Seq<Message>) -> Seq<Message>
    decreases added.len(),
{
    if added.len() == 0 {
        log
    } else {
        log_after(log, added.drop_last()).push(added.last())
    }
}

/// The index that the append number `k` of `added` reports: the length of
/// the log when that message is appended.
pub open spec fn reported_index(log: Seq<Message>, added: Seq<Message>, k: int) -> int {
    log_after(log, added.take(k)).len() as int
}

/// Appending one by one is concatenation.
pub proof fn lemma_log_after_is_concatenation(log: Seq<Message>, added: Seq<Message>)
    ensures
        log_after(log, added) == log + added,
    decreases added.len(),
{
    if added.len() == 0 {
        assert(log + added =~= log);
    } else {
        lemma_log_after_is_concatenation(log, added.drop_last());
        assert((log + added.drop_last()).push(added.last()) =~= log + added);
    }
}

/// After any run of appends to an empty log, every append reported the
/// length of the log before it, and a lookup at an index below the length
/// finds exactly the message that was appended at that index.
pub proof fn law_lookup_finds_what_was_appended(added: Seq<Message>, i: int)
    requires
        0 <= i < added.len(),
    ensures
        log_after(Seq::empty(), added).len() == added.len(),
        reported_index(Seq::empty(), added, i) == i,
        entry(log_after(Seq::empty(), added), i) == Some(added[i]),
{
    lemma_log_after_is_concatenation(Seq::empty(), added);
    lemma_log_after_is_concatenation(Seq::empty(), added.take(i));
    assert(Seq::<Message>::empty() + added =~= added);
}

/// An append to any log reports the length before it, leaves every earlier
/// entry at its index, and puts the message at the reported index.
pub proof fn law_append_keeps_earlier_entries(log: Seq<Message>, message: Message, i: int)
    requires
        0 <= i < log.len(),
    ensures
        entry(log.push(message), i) == entry(log, i),
        entry(log.push(message), log.len() as int) == Some(message),
        reported_index(log, seq![message], 0) == log.len(),
{
    assert(seq![message].take(0) =~= Seq::<Message>::empty());
}

/// A range that is found is a run of neighbouring entries of the log in
/// their order: entry `k` of the result is the entry of the log at `k`
/// places after the first index of the request.
pub proof fn law_range_is_contiguous(
    log: Seq<Message>,
    start: IndexBound,
    end: IndexBound,
    k: int,
)
    requires
        requested(log, start, end).is_some(),
        0 <= k < requested(log, start, end).unwrap().len(),
    ensures
        0 < requested(log, start, end).unwrap().len() <= log.len(),
        entry(log, crate::bounds::first_index(start) + k) == Some(
            requested(log, start, end).unwrap()[k],
        ),
{
}

/// Two lookups of the same range in a log that did not change in between
/// find the same messages: what the first found is what the second finds.
pub proof fn law_range_lookup_repeats(
    log: Seq<Message>,
    start: IndexBound,
    end: IndexBound,
    once: Option<Vec<Arc<Message>>>,
    again: Option<Vec<Arc<Message>>>,
)
    requires
        found_messages(once) == requested(log, start, end),
        found_messages(again) == requested(log, start, end),
    ensures
        found_messages(once) == found_messages(again),
        once.is_some() == again.is_some(),
        once.is_some() ==> contents(once.unwrap()@) == contents(again.unwrap()@),
{
}

/// The empty interval `i..i` is invalid in every log, though it could be
/// read as a valid request for nothing.
pub proof fn law_empty_interval_is_invalid(log: Seq<Message>, i: usize)
    ensures
        requested(log, IndexBound::Included(i), IndexBound::Excluded(i)).is_none(),
{
}

/// In a log that is not empty, the interval from the first index to the
/// largest index there is, be that end included or excluded, is the whole
/// log.
pub proof fn law_widest_interval_is_whole_log(log: Seq<Message>)
    requires
        0 < log.len() <= usize::MAX,
    ensures
        requested(log, IndexBound::Included(0), IndexBound::Included(usize::MAX)) == Some(log),
        requested(log, IndexBound::Included(0), IndexBound::Excluded(usize::MAX)) == Some(log),
        requested(log, IndexBound::Unbounded, IndexBound::Unbounded) == Some(log),
{
    assert(log.subrange(0, log.len() as int) =~= log);
}

/// The interval from the largest index down to the smallest is invalid in
/// every log.
pub proof fn law_reversed_extremes_are_invalid(log: Seq<Message>)
    ensures
        requested(log, IndexBound::Included(usize::MAX), IndexBound::Included(0)).is_none(),
{
}

/// An interval whose first index is not below its end is invalid in every
/// log, and so is one that starts at or beyond the end of the log.
pub proof fn law_reversed_interval_is_invalid(log: Seq<Message>, first: usize, stop: usize)
    requires
        first >= stop || first >= log.len(),
    ensures
        requested(log, IndexBound::Included(first), IndexBound::Excluded(stop)).is_none(),
        !is_satisfiable(IndexBound::Included(first), IndexBound::Excluded(stop), log.len() as int),
{
}

/// However a set of appends to an empty log is put in order, the indices
/// that they report are each index below their number exactly once, and a
/// lookup of everything afterwards finds all of them in that order.
pub proof fn law_appends_report_each_index_once(added: Seq<Message>)
    requires
        0 < added.len(),
    ensures
        forall|k: int| 0 <= k < added.len() ==> reported_index(Seq::empty(), added, k) == k,
        forall|j: int, k: int|
            0 <= j < k < added.len() ==> reported_index(Seq::empty(), added, j) != reported_index(
                Seq::empty(),
                added,
                k,
            ),
        Set::new(
            |i: int|
                exists|k: int|
                    0 <= k < added.len() && #[trigger] reported_index(Seq::empty(), added, k) == i,
        ) == Set::new(|i: int| 0 <= i < added.len()),
        requested(
            log_after(Seq::empty(), added),
            IndexBound::Unbounded,
            IndexBound::Unbounded,
        ) == Some(added),
{
    assert forall|k: int| 0 <= k < added.len() implies #[trigger] reported_index(
        Seq::empty(),
        added,
        k,
    ) == k by {
        law_lookup_finds_what_was_appended(added, k);
    }
    lemma_log_after_is_concatenation(Seq::empty(), added);
    assert(Seq::<Message>::empty() + added =~= added);
    assert(added.subrange(0, added.len() as int) =~= added);
    let reported = Set::new(
        |i: int|
            exists|k: int|
                0 <= k < added.len() && #[trigger] reported_index(Seq::empty(), added, k) == i,
    );
    let dense = Set::new(|i: int| 0 <= i < added.len());
    assert forall|i: int| reported.contains(i) <==> dense.contains(i) by {
        if dense.contains(i) {
            assert(reported_index(Seq::empty(), added, i) == i);
        }
    }
    assert(reported =~= dense);
}

} // verus!

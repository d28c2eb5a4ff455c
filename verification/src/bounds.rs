//! Resolution of a requested index interval against the length of a log.
//!
//! A request names each end of the interval on its own: included, excluded
//! or left open. Resolution turns the request into a half-open interval
//! `[first, end)` that lies inside the log, or reports it as invalid.
//!
//! An interval that resolves to no index at all is invalid. This includes
//! the empty interval `i..i`, which could as well be read as a valid request
//! for nothing: here a request either yields at least one index or fails.

use vstd::prelude::*;

verus! {

/// One end of a requested interval of indices.
#[derive(Clone, Copy, Debug, PartialEq, Eq, Structural)]
pub enum IndexBound {
    /// The interval reaches this index and holds it.
    Included(usize),
    /// The interval reaches this index and leaves it out.
    Excluded(usize),
    /// The interval is open at this end.
    Unbounded,
}

/// The first index of an interval that starts at `start`.
pub open spec fn first_index(start: IndexBound) -> int {
    match start {
        IndexBound::Included(i) => i as int,
        IndexBound::Excluded(i) => i + 1,
        IndexBound::Unbounded => 0,
    }
}

/// The index just past an interval that stops at `end`, in a log of `len`
/// entries: never beyond the log.
pub open spec fn end_index(end: IndexBound, len: int) -> int {
    match end {
        IndexBound::Included(i) => if i + 1 < len { i + 1 } else { len },
        IndexBound::Excluded(i) => if i < len { i as int } else { len },
        IndexBound::Unbounded => len,
    }
}

/// Whether the request names at least one index of a log of `len` entries.
pub open spec fn is_satisfiable(start: IndexBound, end: IndexBound, len: int) -> bool {
    first_index(start) < end_index(end, len)
}

/// The half-open interval that the request resolves to, if any.
pub open spec fn resolved(start: IndexBound, end: IndexBound, len: int) -> Option<(int, int)> {
    if is_satisfiable(start, end, len) {
        Some((first_index(start), end_index(end, len)))
    } else {
        None
    }
}

/// Resolves a requested interval against a log of `len` entries.
///
/// An end beyond the log is lowered to `len`. The result is `None` exactly
/// when no index is left, and the arithmetic cannot overflow, whatever the
/// bounds hold.
pub fn resolve(start: IndexBound, end: IndexBound, len: usize) -> (range: Option<(usize, usize)>)
    ensures
        match range {
            Some((first, stop)) => resolved(start, end, len as int) == Some(
                (first as int, stop as int),
            ),
            None => resolved(start, end, len as int).is_none(),
        },
{
    let requested_end: usize = match end {
        IndexBound::Included(i) => i.saturating_add(1),
        IndexBound::Excluded(i) => i,
        IndexBound::Unbounded => usize::MAX,
    };
    let stop: usize = if requested_end < len {
        requested_end
    } else {
        len
    };
    let first: usize = match start {
        IndexBound::Included(i) => i,
        IndexBound::Excluded(i) => {
            if i == usize::MAX {
                return None;
            }
            i + 1
        },
        IndexBound::Unbounded => 0,
    };
    if first >= stop {
        None
    } else {
        Some((first, stop))
    }
}

} // verus!

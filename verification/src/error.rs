//! Why a request was not served.

use vstd::prelude::*;

verus! {

/// The ways in which a request to the room or a transfer can come to
/// nothing. Each of them is an outcome that the caller is expected to
/// handle; none of them ends the process.
#[derive(Clone, Copy, Debug, PartialEq, Eq, Structural)]
pub enum ChatError {
    /// A message was handed in without a sender or without a text.
    InvalidInput,
    /// The room holds no message at the index that was asked for.
    NotFound,
    /// The interval that was asked for names no message of the room.
    InvalidRange,
    /// The room could not be reached; the request may be tried again.
    LockUnavailable,
    /// One side of a relay failed while a transfer was under way.
    StreamAborted,
}

} // verus!

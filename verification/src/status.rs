//! The tri-state space status and the mapping from the wire value of the
//! endpoint's `state` field.

use vstd::prelude::*;
use crate::strutil::str_eq;

verus! {

/// The reported condition of the space. `Unknown` is both the initial value
/// and the fallback for any unrecognized remote payload.
#[derive(Clone, Copy, PartialEq, Eq, Debug, Structural)]
pub enum Status {
    Unknown,
    Closed,
    Open,
}

/// What a wire value of the `state` field means: `"open"` and `"closed"` are
/// the two recognized values; anything else reads as `Unknown`.
pub open spec fn status_of_state(s: Seq<char>) -> Status {
    if s == "open"@ {
        Status::Open
    } else if s == "closed"@ {
        Status::Closed
    } else {
        Status::Unknown
    }
}

/// Maps the text of the `state` field to a `Status`.
pub fn status_from_state(s: &str) -> (st: Status)
    ensures
        st == status_of_state(s@),
{
    if str_eq(s, "open") {
        Status::Open
    } else if str_eq(s, "closed") {
        Status::Closed
    } else {
        Status::Unknown
    }
}

} // verus!

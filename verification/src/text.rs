//! The outbound message texts: the status labels, the query reply
//! `Pixelbar is {status}!`, and the transition broadcast
//! `Pixelbar is now {status}`.

use vstd::prelude::*;
use vstd::string::StringExecFns;
use crate::status::Status;

verus! {

/// How a status renders in chat messages.
pub open spec fn status_label(s: Status) -> Seq<char> {
    match s {
        Status::Unknown => "Unknown"@,
        Status::Closed => "Closed"@,
        Status::Open => "Open"@,
    }
}

/// The text of a reply to a status query.
pub open spec fn reply_text(s: Status) -> Seq<char> {
    "Pixelbar is "@ + status_label(s) + "!"@
}

/// The text of an unsolicited transition broadcast.
pub open spec fn broadcast_text(s: Status) -> Seq<char> {
    "Pixelbar is now "@ + status_label(s)
}

/// The label of a status, as rendered in messages.
pub fn status_name(s: Status) -> (r: &'static str)
    ensures
        r@ == status_label(s),
{
    match s {
        Status::Unknown => "Unknown",
        Status::Closed => "Closed",
        Status::Open => "Open",
    }
}

/// Builds the reply to a status query.
pub fn reply_message(s: Status) -> (r: String)
    ensures
        r@ == reply_text(s),
{
    let mut m = String::from_str("Pixelbar is ");
    m.append(status_name(s));
    m.append("!");
    m
}

/// Builds the broadcast announcing a status transition.
pub fn broadcast_message(s: Status) -> (r: String)
    ensures
        r@ == broadcast_text(s),
{
    let mut m = String::from_str("Pixelbar is now ");
    m.append(status_name(s));
    m
}

} // verus!

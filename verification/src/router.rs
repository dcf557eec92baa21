//! The message router: detects status queries in inbound channel messages
//! and builds the reply, addressed to the channel the query arrived on.

use vstd::prelude::*;
use crate::store::StateStore;
use crate::strutil::{contains_seq, contains_str};
use crate::text::{reply_message, reply_text};

verus! {

/// A message body is a status query when it contains one of the two trigger
/// phrases, case-sensitively, anywhere in the text.
pub open spec fn is_query_text(body: Seq<char>) -> bool {
    contains_seq(body, "!state"@) || contains_seq(body, "!spacestate"@)
}

/// Whether a message body asks for the status.
pub fn is_query(body: &str) -> (b: bool)
    ensures
        b == is_query_text(body@),
{
    contains_str(body, "!state") || contains_str(body, "!spacestate")
}

/// An outbound reply: the channel to address and the text to send.
#[derive(PartialEq, Eq, Debug)]
pub struct Reply {
    pub channel: String,
    pub text: String,
}

/// Routes one inbound channel message: a query gets exactly one reply,
/// carrying the store's value at this moment, addressed to the channel the
/// message arrived on; any other message gets none.
pub fn route_message(store: &StateStore, channel: &str, body: &str) -> (r: Option<Reply>)
    ensures
        r is Some <==> is_query_text(body@),
        r matches Some(rep) ==> rep.channel@ == channel@ && rep.text@ == reply_text(store@),
{
    if is_query(body) {
        Some(Reply { channel: channel.to_owned(), text: reply_message(store.read()) })
    } else {
        None
    }
}

} // verus!

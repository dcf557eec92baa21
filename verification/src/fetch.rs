//! Decoding of the status endpoint's response body: the wire payload shape
//! `{"state": "..."}` and the fetch error taxonomy.

use vstd::prelude::*;
use vstd::string::StringExecFns;
use crate::status::{status_of_state, Status};
use crate::status::status_from_state;

verus! {

/// Why a fetch produced no status: the transport failed (connection, TLS,
/// timeout, non-success response), or the body was not in the expected shape.
/// Both are only ever logged; the poller treats them alike.
#[derive(Clone, PartialEq, Eq, Debug)]
pub enum FetchError {
    /// A transport-level failure, with the transport's own description.
    Transport(String),
    /// The body could not be decoded as the expected payload shape.
    Decode,
}

/// The `state` string field of the JSON document `body`, if `body` is a JSON
/// document carrying a string field of that name.
pub uninterp spec fn state_field_of(body: Seq<char>) -> Option<Seq<char>>;

/// Relies on `serde_json::from_str`, `serde_json::Value::get` and
/// `serde_json::Value::as_str`: together they parse a JSON document and
/// extract its `state` field when that field holds a string. The result
/// depends on the body text alone.
#[verifier::external_body]
fn extract_state_field(body: &str) -> (r: Option<String>)
    ensures
        r is Some <==> state_field_of(body@) is Some,
        r matches Some(f) ==> state_field_of(body@) == Some(f@),
{
    let value: serde_json::Value = match serde_json::from_str(body) {
        Ok(v) => v,
        Err(_) => return None,
    };
    match value.get("state") {
        Some(field) => match field.as_str() {
            Some(s) => Some(s.to_owned()),
            None => None,
        },
        None => None,
    }
}

/// The remote wire shape: a single `state` field holding the reported
/// condition as text.
#[derive(Clone, PartialEq, Eq, Debug)]
pub struct StatusPayload {
    pub state: String,
}

impl StatusPayload {
    /// The status that this payload reports.
    pub fn status(&self) -> (st: Status)
        ensures
            st == status_of_state(self.state@),
    {
        status_from_state(self.state.as_str())
    }
}

/// Decodes a response body as a `StatusPayload`. Succeeds exactly when the
/// body is a JSON document with a string field `state`; any other body is a
/// decode failure.
pub fn parse_payload(body: &str) -> (r: Result<StatusPayload, FetchError>)
    ensures
        r is Ok <==> state_field_of(body@) is Some,
        r matches Ok(p) ==> state_field_of(body@) == Some(p.state@),
        r is Err ==> r == Err::<StatusPayload, FetchError>(FetchError::Decode),
{
    match extract_state_field(body) {
        Some(state) => Ok(StatusPayload { state }),
        None => Err(FetchError::Decode),
    }
}

/// The operator-visible description of a fetch error.
pub open spec fn fetch_error_text(e: FetchError) -> Seq<char> {
    match e {
        FetchError::Transport(msg) => "transport error: "@ + msg@,
        FetchError::Decode => "could not decode status payload"@,
    }
}

impl FetchError {
    /// Renders the error for the operator log.
    pub fn describe(&self) -> (r: String)
        ensures
            r@ == fetch_error_text(*self),
    {
        match self {
            FetchError::Transport(msg) => {
                let mut m = String::from_str("transport error: ");
                m.append(msg.as_str());
                m
            },
            FetchError::Decode => String::from_str("could not decode status payload"),
        }
    }
}

} // verus!

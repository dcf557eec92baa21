//! The poller's per-tick decision: what one fetch result does to the store,
//! and when a transition broadcast is owed.

use vstd::prelude::*;
use crate::fetch::FetchError;
use crate::status::Status;

verus! {

/// What one tick does with a fetch result.
#[derive(Clone, PartialEq, Eq, Debug)]
pub enum TickDecision {
    /// The fetch failed: log the error, leave the store alone.
    FetchFailed(FetchError),
    /// The fetch succeeded but reported `Unknown`: log it, leave the store
    /// alone, so a previously confirmed value keeps answering queries.
    UnknownReading,
    /// Record the confirmed value without a broadcast: either the store held
    /// `Unknown` (first confirmed reading), or the value did not change.
    Confirm(Status),
    /// The confirmed value differs from the confirmed value in the store:
    /// broadcast the transition, and record the value only if the send
    /// succeeds.
    BroadcastAndConfirm(Status),
}

/// The decision one tick takes, given the store's current value and the
/// fetch result.
pub open spec fn decision_of(current: Status, fetched: Result<Status, FetchError>) -> TickDecision {
    match fetched {
        Err(e) => TickDecision::FetchFailed(e),
        Ok(Status::Unknown) => TickDecision::UnknownReading,
        Ok(new) => if current == Status::Unknown || current == new {
            TickDecision::Confirm(new)
        } else {
            TickDecision::BroadcastAndConfirm(new)
        },
    }
}

/// Decides what one tick does with a fetch result.
pub fn tick_decision(current: Status, fetched: Result<Status, FetchError>) -> (d: TickDecision)
    ensures
        d == decision_of(current, fetched),
{
    match fetched {
        Err(e) => TickDecision::FetchFailed(e),
        Ok(Status::Unknown) => TickDecision::UnknownReading,
        Ok(new) => if current == Status::Unknown || current == new {
            TickDecision::Confirm(new)
        } else {
            TickDecision::BroadcastAndConfirm(new)
        },
    }
}

/// The store's value after a tick commits a decision; `send_ok` reports
/// whether the broadcast, if one was owed, was sent successfully.
pub open spec fn store_after(current: Status, d: TickDecision, send_ok: bool) -> Status {
    match d {
        TickDecision::FetchFailed(_) => current,
        TickDecision::UnknownReading => current,
        TickDecision::Confirm(new) => new,
        TickDecision::BroadcastAndConfirm(new) => if send_ok {
            new
        } else {
            current
        },
    }
}

/// One tick as the poller experiences it: the fetch result and whether the
/// broadcast send, if one was attempted, succeeded.
#[derive(PartialEq, Eq, Debug)]
pub struct TickEvent {
    pub fetched: Result<Status, FetchError>,
    pub send_ok: bool,
}

/// The store's value after one whole tick on `ev`.
pub open spec fn store_after_tick(current: Status, ev: TickEvent) -> Status {
    store_after(current, decision_of(current, ev.fetched), ev.send_ok)
}

/// The store's value after a sequence of ticks, starting from `init`.
pub open spec fn run_ticks(init: Status, evs: Seq<TickEvent>) -> Status
    decreases evs.len(),
{
    if evs.len() == 0 {
        init
    } else {
        store_after_tick(run_ticks(init, evs.drop_last()), evs.last())
    }
}

/// A fetch result that confirms a status: it succeeded with a value other
/// than `Unknown`.
pub open spec fn is_confirmed_reading(fetched: Result<Status, FetchError>) -> bool {
    fetched matches Ok(s) && s != Status::Unknown
}

/// A decision that owes a broadcast.
pub open spec fn decides_broadcast(d: TickDecision) -> bool {
    d is BroadcastAndConfirm
}

/// Law: after any sequence of ticks from a fresh store, the store reads
/// `Unknown` exactly as long as no fetch has ever confirmed a status.
pub proof fn lemma_unknown_iff_never_confirmed(evs: Seq<TickEvent>)
    ensures
        run_ticks(Status::Unknown, evs) == Status::Unknown <==> (forall|i: int|
            0 <= i < evs.len() ==> !is_confirmed_reading(#[trigger] evs[i].fetched)),
    decreases evs.len(),
{
    if evs.len() > 0 {
        lemma_unknown_iff_never_confirmed(evs.drop_last());
        let prev = run_ticks(Status::Unknown, evs.drop_last());
        assert(forall|i: int| 0 <= i < evs.len() - 1 ==> evs.drop_last()[i] == #[trigger] evs[i]);
        if prev != Status::Unknown {
            assert(store_after_tick(prev, evs.last()) != Status::Unknown);
        }
        assert(evs.last() == evs[evs.len() - 1]);
    }
}

/// Law: a tick decides to broadcast exactly when the store's current value
/// and the newly fetched value are both confirmed (non-`Unknown`) and
/// differ; in particular the first confirmed value after `Unknown` never
/// broadcasts.
pub proof fn lemma_broadcast_iff_confirmed_change(
    current: Status,
    fetched: Result<Status, FetchError>,
)
    ensures
        decides_broadcast(decision_of(current, fetched)) <==> (is_confirmed_reading(fetched)
            && current != Status::Unknown && fetched != Ok::<Status, FetchError>(current)),
{
}

/// Law: when a tick owes a broadcast and the send fails, the tick leaves the
/// store unchanged, so the transition is retried on a later tick.
pub proof fn lemma_failed_send_keeps_store(current: Status, fetched: Result<Status, FetchError>)
    requires
        decides_broadcast(decision_of(current, fetched)),
    ensures
        store_after(current, decision_of(current, fetched), false) == current,
{
}

} // verus!

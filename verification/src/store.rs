//! The state store: the single shared value holding the last confirmed
//! status. It is created once, holding `Unknown`, and changes only when a
//! tick commits a decision.

use vstd::prelude::*;
use crate::poller::{store_after, TickDecision};
use crate::status::Status;

verus! {

/// The store. Its view is the status it currently holds.
pub struct StateStore {
    value: Status,
}

impl View for StateStore {
    type V = Status;

    closed spec fn view(&self) -> Status {
        self.value
    }
}

impl StateStore {
    /// A fresh store holds `Unknown`.
    pub fn new() -> (s: Self)
        ensures
            s@ == Status::Unknown,
    {
        StateStore { value: Status::Unknown }
    }

    /// The current value.
    pub fn read(&self) -> (r: Status)
        ensures
            r == self@,
    {
        self.value
    }

    /// Commits a tick's decision. `send_ok` reports whether the broadcast,
    /// if the decision owed one, was sent successfully; a failed send leaves
    /// the store unchanged.
    pub fn commit_tick(&mut self, d: &TickDecision, send_ok: bool)
        ensures
            final(self)@ == store_after(old(self)@, *d, send_ok),
    {
        match d {
            TickDecision::FetchFailed(_) => {},
            TickDecision::UnknownReading => {},
            TickDecision::Confirm(new) => {
                self.value = *new;
            },
            TickDecision::BroadcastAndConfirm(new) => {
                if send_ok {
                    self.value = *new;
                }
            },
        }
    }
}

} // verus!

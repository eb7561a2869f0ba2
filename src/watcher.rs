//! Waiting for a broadcast transaction's receipt.
//!
//! The caller looks the receipt up when asked and reports what it found; a
//! receipt, once seen, decides the outcome for good.

use vstd::prelude::*;

verus! {

/// Fixed wait between receipt lookups.
pub const POLL_INTERVAL_SECS: u64 = 3;

/// Receipt status value of a successful transaction.
pub const STATUS_SUCCESS: u64 = 1;

/// The part of a transaction receipt that decides the outcome.
#[derive(Clone, Copy, Debug, PartialEq, Eq, Structural)]
pub struct Receipt {
    pub status: Option<u64>,
}

/// The result of one receipt lookup.
#[derive(Clone, Copy, Debug, PartialEq, Eq, Structural)]
pub enum Lookup {
    Found(Receipt),
    NotYet,
    RpcError,
}

#[derive(Clone, Copy, Debug, PartialEq, Eq, Structural)]
pub enum WatchState {
    Submitted,
    Waiting,
    Confirmed,
    Failed,
}

/// Only a success status confirms; a receipt with any other status, or none,
/// means the call took no effect.
pub open spec fn succeeded(r: Receipt) -> bool {
    r.status == Some(STATUS_SUCCESS)
}

pub open spec fn is_terminal(s: WatchState) -> bool {
    s is Confirmed || s is Failed
}

/// The state after a lookup. Lookups that find nothing, and failed lookups,
/// keep waiting without limit.
pub open spec fn watch_next(s: WatchState, l: Lookup) -> WatchState {
    if is_terminal(s) {
        s
    } else {
        match l {
            Lookup::Found(r) => if succeeded(r) {
                WatchState::Confirmed
            } else {
                WatchState::Failed
            },
            _ => WatchState::Waiting,
        }
    }
}

/// Seconds to wait before the next lookup, or none once the outcome is known.
pub open spec fn poll_delay(s: WatchState) -> Option<u64> {
    match s {
        WatchState::Submitted => Some(0),
        WatchState::Waiting => Some(POLL_INTERVAL_SECS),
        _ => None,
    }
}

/// Watches one broadcast transaction.
#[derive(Clone, Copy, Debug, PartialEq, Eq, Structural)]
pub struct ConfirmationWatcher {
    pub state: WatchState,
}

impl ConfirmationWatcher {
    /// Starts right after broadcast.
    pub fn new() -> (r: ConfirmationWatcher)
        ensures
            r.state == WatchState::Submitted,
    {
        ConfirmationWatcher { state: WatchState::Submitted }
    }

    pub fn observe(&mut self, lookup: Lookup)
        ensures
            final(self).state == watch_next(old(self).state, lookup),
    {
        match self.state {
            WatchState::Confirmed | WatchState::Failed => {},
            _ => {
                self.state = match lookup {
                    Lookup::Found(r) => if r.status == Some(STATUS_SUCCESS) {
                        WatchState::Confirmed
                    } else {
                        WatchState::Failed
                    },
                    _ => WatchState::Waiting,
                };
            },
        }
    }

    pub fn next_poll_delay(&self) -> (r: Option<u64>)
        ensures
            r == poll_delay(self.state),
    {
        match self.state {
            WatchState::Submitted => Some(0),
            WatchState::Waiting => Some(POLL_INTERVAL_SECS),
            _ => None,
        }
    }

    /// `Some(true)` once confirmed, `Some(false)` once failed, else none.
    pub fn outcome(&self) -> (r: Option<bool>)
        ensures
            r == match self.state {
                WatchState::Confirmed => Some(true),
                WatchState::Failed => Some(false),
                _ => None::<bool>,
            },
    {
        match self.state {
            WatchState::Confirmed => Some(true),
            WatchState::Failed => Some(false),
            _ => None,
        }
    }
}

/// From a state still waiting: the watcher confirms only on a receipt with a
/// success status, fails only on a receipt with another status, and on no
/// receipt keeps waiting and polls again after the fixed interval. The outcome,
/// once reached, never changes.
pub proof fn lemma_watch_transitions(s: WatchState, l: Lookup)
    ensures
        !is_terminal(s) ==> (watch_next(s, l) == WatchState::Confirmed <==> (l matches Lookup::Found(
            r,
        ) && succeeded(r))),
        !is_terminal(s) ==> (watch_next(s, l) == WatchState::Failed <==> (l matches Lookup::Found(
            r,
        ) && !succeeded(r))),
        !is_terminal(s) && !(l is Found) ==> watch_next(s, l) == WatchState::Waiting && poll_delay(
            watch_next(s, l),
        ) == Some(POLL_INTERVAL_SECS),
        is_terminal(s) ==> watch_next(s, l) == s && poll_delay(s) is None,
{
}

} // verus!

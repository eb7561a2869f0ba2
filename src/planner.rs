//! One action against the game, from planning to its final outcome.
//!
//! An [`Action`] is a state machine: [`Action::request`] says what the caller
//! must do next (query the chain, encode the call, sign and broadcast, wait and
//! look up the receipt), and [`Action::handle`] takes what came back. The
//! caller never decides; it only performs the requested work.

use vstd::prelude::*;
use crate::amount::Amount;
use crate::gas::{
    GasEstimator, GasStep, gas_step, failures_after, usable, ESTIMATE_BACKOFF_SECS,
    MAX_ESTIMATE_ATTEMPTS,
};
use crate::ledger::{ResourceCost, WalletBalances, Shortfall, covers, gap, affordable, shortfall};
use crate::metadata::BuildingKind;
use crate::nonce::{nonce_from, next_nonce};
use crate::watcher::{ConfirmationWatcher, Lookup, WatchState, watch_next, poll_delay};

verus! {

/// The contract call an action makes.
#[derive(Clone, Copy, Debug, PartialEq, Eq, Structural)]
pub enum ActionCall {
    /// Level up one building of one planet.
    LevelUp { kind: BuildingKind, planet: Amount },
    /// Harvest every owned planet in a single call.
    HarvestAll,
}

/// How an action ended.
#[derive(Clone, Copy, Debug, PartialEq, Eq, Structural)]
pub enum Outcome {
    /// The building already stands at the wanted level; nothing was queried.
    AlreadyAtLevel,
    /// The wallet cannot pay for the upgrade; what it lacks, per resource.
    Unaffordable(Shortfall),
    /// The transaction was mined with a success status.
    Confirmed,
    /// The transaction was mined but did not succeed; its gas was spent.
    Reverted,
    QuoteUnavailable,
    BalancesUnavailable,
    EncodingFailed,
    /// Every allowed gas estimate failed; nothing was broadcast.
    EstimationFailed,
    NonceUnavailable,
    BroadcastFailed,
    /// The operator stopped the action before it ended.
    Cancelled,
}

/// Where an action stands.
#[derive(Clone, Copy, Debug, PartialEq, Eq, Structural)]
pub enum Phase {
    AwaitCost { kind: BuildingKind, level: u32 },
    AwaitBalances { cost: ResourceCost },
    AwaitEncoding,
    Estimating { gas: GasEstimator },
    AwaitNonce { gas_limit: Amount },
    AwaitBroadcast { nonce: u64, gas_limit: Amount },
    Watching { watcher: ConfirmationWatcher },
    Done(Outcome),
}

/// The work the caller must do next.
#[derive(Clone, Copy, Debug, PartialEq, Eq, Structural)]
pub enum Request {
    /// Query the cost of raising `kind` to `level`.
    QueryCost { kind: BuildingKind, level: u32 },
    /// Read the wallet's three resource balances afresh.
    QueryBalances,
    /// Encode the call's data with the contract's interface.
    EncodeCall(ActionCall),
    /// Wait `backoff_secs`, then ask the chain for a gas estimate of the call;
    /// `failed_attempts` have failed so far.
    EstimateGas { failed_attempts: u32, backoff_secs: u64 },
    /// Query the account's pending-inclusive transaction count.
    QueryNonce,
    /// Build, sign and broadcast the transaction with this nonce and gas limit.
    SignAndBroadcast { nonce: u64, gas_limit: Amount },
    /// Wait `delay_secs`, then look up the transaction's receipt.
    PollReceipt { delay_secs: u64 },
    /// Nothing more to do.
    Finished(Outcome),
}

/// What the caller reports back.
#[derive(Clone, Copy, Debug, PartialEq, Eq, Structural)]
pub enum Event {
    /// The cost quote, if it could be read.
    Cost(Option<ResourceCost>),
    /// The balances, if they could be read.
    Balances(Option<WalletBalances>),
    /// Whether the call could be encoded.
    Encoded(bool),
    /// The estimate, or `None` on an RPC error.
    GasEstimate(Option<Amount>),
    /// The pending transaction count, if it could be read.
    PendingCount(Option<Amount>),
    /// Whether the signed transaction was accepted for broadcast.
    Broadcast(bool),
    /// The result of a receipt lookup.
    Receipt(Lookup),
    /// The operator asks to stop; honoured in any phase but the last.
    Cancel,
}

/// An action in progress.
#[derive(Clone, Copy, Debug, PartialEq, Eq, Structural)]
pub struct Action {
    pub call: ActionCall,
    pub phase: Phase,
}

/// `s` holds, per resource, what `balances` lack of `cost`.
pub open spec fn is_shortfall(s: Shortfall, cost: ResourceCost, balances: WalletBalances) -> bool {
    &&& s.solar@ == gap(cost.solar@, balances.solar@)
    &&& s.metal@ == gap(cost.metal@, balances.metal@)
    &&& s.crystal@ == gap(cost.crystal@, balances.crystal@)
}

/// A gas limit is held only once it is usable.
pub open spec fn phase_wf(p: Phase) -> bool {
    match p {
        Phase::AwaitNonce { gas_limit } => gas_limit@ > 0,
        Phase::AwaitBroadcast { gas_limit, .. } => gas_limit@ > 0,
        _ => true,
    }
}

/// The request that a phase makes.
pub open spec fn request_of(a: Action) -> Request {
    match a.phase {
        Phase::AwaitCost { kind, level } => Request::QueryCost { kind, level },
        Phase::AwaitBalances { .. } => Request::QueryBalances,
        Phase::AwaitEncoding => Request::EncodeCall(a.call),
        Phase::Estimating { gas } => Request::EstimateGas {
            failed_attempts: gas.failed,
            backoff_secs: if gas.failed == 0 { 0 } else { ESTIMATE_BACKOFF_SECS },
        },
        Phase::AwaitNonce { .. } => Request::QueryNonce,
        Phase::AwaitBroadcast { nonce, gas_limit } => Request::SignAndBroadcast { nonce, gas_limit },
        Phase::Watching { watcher } => match poll_delay(watcher.state) {
            Some(d) => Request::PollReceipt { delay_secs: d },
            None => Request::Finished(
                if watcher.state == WatchState::Confirmed {
                    Outcome::Confirmed
                } else {
                    Outcome::Reverted
                },
            ),
        },
        Phase::Done(o) => Request::Finished(o),
    }
}

/// `q` is the phase after `p` on event `e`. A cancel ends any unfinished action;
/// another event that does not answer the pending request leaves the phase as it was.
pub open spec fn advances(p: Phase, e: Event, q: Phase) -> bool {
    if e is Cancel {
        q == if p is Done {
            p
        } else {
            Phase::Done(Outcome::Cancelled)
        }
    } else {
        advances_on_answer(p, e, q)
    }
}

/// `q` is the phase after `p` on an event other than a cancel.
pub open spec fn advances_on_answer(p: Phase, e: Event, q: Phase) -> bool {
    match p {
        Phase::AwaitCost { .. } => match e {
            Event::Cost(Some(cost)) => q == Phase::AwaitBalances { cost },
            Event::Cost(None) => q == Phase::Done(Outcome::QuoteUnavailable),
            _ => q == p,
        },
        Phase::AwaitBalances { cost } => match e {
            Event::Balances(Some(b)) => if covers(cost, b) {
                q == Phase::AwaitEncoding
            } else {
                q matches Phase::Done(Outcome::Unaffordable(s)) && is_shortfall(s, cost, b)
            },
            Event::Balances(None) => q == Phase::Done(Outcome::BalancesUnavailable),
            _ => q == p,
        },
        Phase::AwaitEncoding => match e {
            Event::Encoded(ok) => q == if ok {
                Phase::Estimating { gas: GasEstimator { failed: 0 } }
            } else {
                Phase::Done(Outcome::EncodingFailed)
            },
            _ => q == p,
        },
        Phase::Estimating { gas } => match e {
            Event::GasEstimate(o) => match gas_step(gas.failed as nat, o) {
                GasStep::Use(g) => q == Phase::AwaitNonce { gas_limit: g },
                GasStep::Retry { .. } => q == Phase::Estimating {
                    gas: GasEstimator { failed: failures_after(gas.failed as nat, o) as u32 },
                },
                GasStep::Exhausted => q == Phase::Done(Outcome::EstimationFailed),
            },
            _ => q == p,
        },
        Phase::AwaitNonce { gas_limit } => match e {
            Event::PendingCount(Some(c)) => match nonce_from(c@) {
                Some(nonce) => q == Phase::AwaitBroadcast { nonce, gas_limit },
                None => q == Phase::Done(Outcome::NonceUnavailable),
            },
            Event::PendingCount(None) => q == Phase::Done(Outcome::NonceUnavailable),
            _ => q == p,
        },
        Phase::AwaitBroadcast { .. } => match e {
            Event::Broadcast(ok) => q == if ok {
                Phase::Watching { watcher: ConfirmationWatcher { state: WatchState::Submitted } }
            } else {
                Phase::Done(Outcome::BroadcastFailed)
            },
            _ => q == p,
        },
        Phase::Watching { watcher } => match e {
            Event::Receipt(l) => q == match watch_next(watcher.state, l) {
                WatchState::Confirmed => Phase::Done(Outcome::Confirmed),
                WatchState::Failed => Phase::Done(Outcome::Reverted),
                s => Phase::Watching { watcher: ConfirmationWatcher { state: s } },
            },
            _ => q == p,
        },
        Phase::Done(_) => q == p,
    }
}

impl Action {
    /// Plans raising `kind` on `planet` one level above `current_level`: only
    /// while it stands below `threshold`; otherwise the action is over at once.
    pub fn upgrade(kind: BuildingKind, planet: Amount, current_level: u32, threshold: u32) -> (r:
        Action)
        ensures
            r.call == (ActionCall::LevelUp { kind, planet }),
            r.phase == if current_level >= threshold {
                Phase::Done(Outcome::AlreadyAtLevel)
            } else {
                Phase::AwaitCost { kind, level: (current_level + 1) as u32 }
            },
    {
        let phase = if current_level >= threshold {
            Phase::Done(Outcome::AlreadyAtLevel)
        } else {
            Phase::AwaitCost { kind, level: current_level + 1 }
        };
        Action { call: ActionCall::LevelUp { kind, planet }, phase }
    }

    /// Harvests every owned planet with one call; there is nothing to afford.
    pub fn harvest_all() -> (r: Action)
        ensures
            r.call == ActionCall::HarvestAll,
            r.phase == Phase::AwaitEncoding,
    {
        Action { call: ActionCall::HarvestAll, phase: Phase::AwaitEncoding }
    }

    pub open spec fn wf(self) -> bool {
        phase_wf(self.phase)
    }

    /// What the caller must do next.
    pub fn request(&self) -> (r: Request)
        ensures
            r == request_of(*self),
    {
        match self.phase {
            Phase::AwaitCost { kind, level } => Request::QueryCost { kind, level },
            Phase::AwaitBalances { .. } => Request::QueryBalances,
            Phase::AwaitEncoding => Request::EncodeCall(self.call),
            Phase::Estimating { gas } => Request::EstimateGas {
                failed_attempts: gas.failed,
                backoff_secs: gas.backoff_secs(),
            },
            Phase::AwaitNonce { .. } => Request::QueryNonce,
            Phase::AwaitBroadcast { nonce, gas_limit } => Request::SignAndBroadcast {
                nonce,
                gas_limit,
            },
            Phase::Watching { watcher } => match watcher.next_poll_delay() {
                Some(d) => Request::PollReceipt { delay_secs: d },
                None => Request::Finished(
                    match watcher.outcome() {
                        Some(true) => Outcome::Confirmed,
                        _ => Outcome::Reverted,
                    },
                ),
            },
            Phase::Done(o) => Request::Finished(o),
        }
    }

    /// Takes what the caller found, and moves on.
    pub fn handle(&mut self, event: Event)
        requires
            old(self).wf(),
        ensures
            final(self).wf(),
            final(self).call == old(self).call,
            advances(old(self).phase, event, final(self).phase),
    {
        if let Event::Cancel = event {
            if !self.is_finished() {
                self.phase = Phase::Done(Outcome::Cancelled);
            }
            return;
        }
        let next = match self.phase {
            Phase::AwaitCost { .. } => match event {
                Event::Cost(Some(cost)) => Phase::AwaitBalances { cost },
                Event::Cost(None) => Phase::Done(Outcome::QuoteUnavailable),
                _ => self.phase,
            },
            Phase::AwaitBalances { cost } => match event {
                Event::Balances(Some(b)) => if affordable(&cost, &b) {
                    Phase::AwaitEncoding
                } else {
                    Phase::Done(Outcome::Unaffordable(shortfall(&cost, &b)))
                },
                Event::Balances(None) => Phase::Done(Outcome::BalancesUnavailable),
                _ => self.phase,
            },
            Phase::AwaitEncoding => match event {
                Event::Encoded(ok) => if ok {
                    Phase::Estimating { gas: GasEstimator::new() }
                } else {
                    Phase::Done(Outcome::EncodingFailed)
                },
                _ => self.phase,
            },
            Phase::Estimating { gas } => match event {
                Event::GasEstimate(o) => {
                    let mut gas = gas;
                    match gas.record(o) {
                        GasStep::Use(g) => Phase::AwaitNonce { gas_limit: g },
                        GasStep::Retry { .. } => Phase::Estimating { gas },
                        GasStep::Exhausted => Phase::Done(Outcome::EstimationFailed),
                    }
                },
                _ => self.phase,
            },
            Phase::AwaitNonce { gas_limit } => match event {
                Event::PendingCount(Some(c)) => match next_nonce(&c) {
                    Some(nonce) => Phase::AwaitBroadcast { nonce, gas_limit },
                    None => Phase::Done(Outcome::NonceUnavailable),
                },
                Event::PendingCount(None) => Phase::Done(Outcome::NonceUnavailable),
                _ => self.phase,
            },
            Phase::AwaitBroadcast { .. } => match event {
                Event::Broadcast(ok) => if ok {
                    Phase::Watching { watcher: ConfirmationWatcher::new() }
                } else {
                    Phase::Done(Outcome::BroadcastFailed)
                },
                _ => self.phase,
            },
            Phase::Watching { watcher } => match event {
                Event::Receipt(l) => {
                    let mut watcher = watcher;
                    watcher.observe(l);
                    match watcher.state {
                        WatchState::Confirmed => Phase::Done(Outcome::Confirmed),
                        WatchState::Failed => Phase::Done(Outcome::Reverted),
                        _ => Phase::Watching { watcher },
                    }
                },
                _ => self.phase,
            },
            Phase::Done(_) => self.phase,
        };
        self.phase = next;
    }

    /// Whether the action has ended.
    pub fn is_finished(&self) -> (r: bool)
        ensures
            r == (self.phase is Done),
    {
        match self.phase {
            Phase::Done(_) => true,
            _ => false,
        }
    }
}

/// Only a usable gas limit is ever handed out for signing and broadcast.
pub proof fn lemma_broadcast_has_usable_gas(a: Action)
    requires
        a.wf(),
    ensures
        request_of(a) matches Request::SignAndBroadcast { gas_limit, .. } ==> gas_limit@ > 0,
{
}

/// After nine failed estimates, a tenth failure (an RPC error or a zero estimate)
/// ends the action as failed estimation: no further estimate, nonce query or
/// broadcast is requested.
pub proof fn lemma_tenth_failed_estimate_ends_action(call: ActionCall, o: Option<Amount>, q: Phase)
    requires
        !usable(o),
        advances(
            Phase::Estimating { gas: GasEstimator { failed: (MAX_ESTIMATE_ATTEMPTS - 1) as u32 } },
            Event::GasEstimate(o),
            q,
        ),
    ensures
        q == Phase::Done(Outcome::EstimationFailed),
        request_of(Action { call, phase: q }) == Request::Finished(Outcome::EstimationFailed),
{
}

/// An action that finds its building at or above the threshold is over at once,
/// without asking for a cost; one that asks for a cost asks for the next level.
pub proof fn lemma_upgrade_starts_right(
    kind: BuildingKind,
    planet: Amount,
    current_level: u32,
    threshold: u32,
    a: Action,
)
    requires
        a.call == (ActionCall::LevelUp { kind, planet }),
        a.phase == if current_level >= threshold {
            Phase::Done(Outcome::AlreadyAtLevel)
        } else {
            Phase::AwaitCost { kind, level: (current_level + 1) as u32 }
        },
    ensures
        current_level >= threshold ==> request_of(a) == Request::Finished(Outcome::AlreadyAtLevel),
        current_level < threshold ==> request_of(a) == (Request::QueryCost {
            kind,
            level: (current_level + 1) as u32,
        }),
{
}

/// Balances that do not cover the quoted cost end the action with the exact
/// shortfall, and nothing is encoded, estimated or broadcast.
pub proof fn lemma_unaffordable_ends_action(
    cost: ResourceCost,
    balances: WalletBalances,
    q: Phase,
)
    requires
        !covers(cost, balances),
        advances(Phase::AwaitBalances { cost }, Event::Balances(Some(balances)), q),
    ensures
        q matches Phase::Done(Outcome::Unaffordable(s)) && is_shortfall(s, cost, balances),
{
}

} // verus!

use novax_bot::amount::Amount;
use novax_bot::ledger::{ResourceCost, WalletBalances};
use novax_bot::metadata::BuildingKind;
use novax_bot::planner::{Action, ActionCall, Event, Outcome, Request};
use novax_bot::watcher::{Lookup, Receipt};

fn amt(v: u64) -> Amount {
    Amount::from_u64(v)
}

fn quoted_upgrade(balances: WalletBalances) -> Action {
    let mut a = Action::upgrade(BuildingKind::Solar, amt(12), 1, 2);
    assert_eq!(a.request(), Request::QueryCost { kind: BuildingKind::Solar, level: 2 });
    a.handle(Event::Cost(ResourceCost::from_quote(&vec![amt(5), amt(3), amt(2)])));
    assert_eq!(a.request(), Request::QueryBalances);
    a.handle(Event::Balances(Some(balances)));
    a
}

#[test]
fn affordable_upgrade_is_submitted_and_confirmed() {
    let mut a = quoted_upgrade(WalletBalances { metal: amt(10), solar: amt(10), crystal: amt(10) });
    assert_eq!(
        a.request(),
        Request::EncodeCall(ActionCall::LevelUp { kind: BuildingKind::Solar, planet: amt(12) })
    );
    a.handle(Event::Encoded(true));
    assert_eq!(a.request(), Request::EstimateGas { failed_attempts: 0, backoff_secs: 0 });
    a.handle(Event::GasEstimate(Some(amt(21000))));
    assert_eq!(a.request(), Request::QueryNonce);
    a.handle(Event::PendingCount(Some(amt(7))));
    assert_eq!(a.request(), Request::SignAndBroadcast { nonce: 7, gas_limit: amt(21000) });
    a.handle(Event::Broadcast(true));
    assert_eq!(a.request(), Request::PollReceipt { delay_secs: 0 });
    a.handle(Event::Receipt(Lookup::NotYet));
    assert_eq!(a.request(), Request::PollReceipt { delay_secs: 3 });
    a.handle(Event::Receipt(Lookup::NotYet));
    assert_eq!(a.request(), Request::PollReceipt { delay_secs: 3 });
    a.handle(Event::Receipt(Lookup::Found(Receipt { status: Some(1) })));
    assert!(a.is_finished());
    assert_eq!(a.request(), Request::Finished(Outcome::Confirmed));
}

#[test]
fn unaffordable_upgrade_reports_shortfall_and_builds_nothing() {
    let a = quoted_upgrade(WalletBalances { metal: amt(10), solar: amt(1), crystal: amt(10) });
    match a.request() {
        Request::Finished(Outcome::Unaffordable(s)) => {
            assert_eq!(s.solar, amt(4));
            assert_eq!(s.metal, amt(0));
            assert_eq!(s.crystal, amt(0));
        }
        other => panic!("unexpected request {:?}", other),
    }
}

#[test]
fn building_at_threshold_is_skipped_without_quote() {
    let a = Action::upgrade(BuildingKind::Metal, amt(3), 2, 2);
    assert!(a.is_finished());
    assert_eq!(a.request(), Request::Finished(Outcome::AlreadyAtLevel));
}

#[test]
fn exhausted_estimation_never_reaches_nonce_or_broadcast() {
    let mut a = quoted_upgrade(WalletBalances { metal: amt(10), solar: amt(10), crystal: amt(10) });
    a.handle(Event::Encoded(true));
    let mut estimates = 0u32;
    while let Request::EstimateGas { failed_attempts, backoff_secs } = a.request() {
        assert_eq!(failed_attempts, estimates);
        assert_eq!(backoff_secs, if estimates == 0 { 0 } else { 5 });
        estimates += 1;
        a.handle(Event::GasEstimate(None));
    }
    assert_eq!(estimates, 10);
    assert_eq!(a.request(), Request::Finished(Outcome::EstimationFailed));
}

#[test]
fn reverted_transaction_is_reported_as_failure() {
    let mut a = Action::harvest_all();
    assert_eq!(a.request(), Request::EncodeCall(ActionCall::HarvestAll));
    a.handle(Event::Encoded(true));
    a.handle(Event::GasEstimate(Some(amt(80000))));
    a.handle(Event::PendingCount(Some(amt(0))));
    assert_eq!(a.request(), Request::SignAndBroadcast { nonce: 0, gas_limit: amt(80000) });
    a.handle(Event::Broadcast(true));
    a.handle(Event::Receipt(Lookup::Found(Receipt { status: Some(0) })));
    assert_eq!(a.request(), Request::Finished(Outcome::Reverted));
}

#[test]
fn failed_queries_end_the_action() {
    let mut a = Action::upgrade(BuildingKind::Crystal, amt(1), 0, 5);
    assert_eq!(a.request(), Request::QueryCost { kind: BuildingKind::Crystal, level: 1 });
    a.handle(Event::Cost(ResourceCost::from_quote(&vec![amt(1)])));
    assert_eq!(a.request(), Request::Finished(Outcome::QuoteUnavailable));

    let mut h = Action::harvest_all();
    h.handle(Event::Encoded(true));
    h.handle(Event::GasEstimate(Some(amt(1))));
    h.handle(Event::PendingCount(None));
    assert_eq!(h.request(), Request::Finished(Outcome::NonceUnavailable));
}

#[test]
fn unrelated_event_leaves_action_unchanged() {
    let mut a = Action::upgrade(BuildingKind::Solar, amt(12), 1, 2);
    let before = a;
    a.handle(Event::Broadcast(true));
    assert_eq!(a, before);
}

#[test]
fn cancel_stops_a_stuck_wait_but_not_a_finished_action() {
    let mut a = Action::harvest_all();
    a.handle(Event::Encoded(true));
    a.handle(Event::GasEstimate(Some(amt(80000))));
    a.handle(Event::PendingCount(Some(amt(4))));
    a.handle(Event::Broadcast(true));
    a.handle(Event::Receipt(Lookup::NotYet));
    assert_eq!(a.request(), Request::PollReceipt { delay_secs: 3 });
    a.handle(Event::Cancel);
    assert_eq!(a.request(), Request::Finished(Outcome::Cancelled));

    let mut done = Action::upgrade(BuildingKind::Solar, amt(1), 3, 2);
    done.handle(Event::Cancel);
    assert_eq!(done.request(), Request::Finished(Outcome::AlreadyAtLevel));
}

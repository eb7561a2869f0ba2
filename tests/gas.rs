use novax_bot::amount::Amount;
use novax_bot::gas::{GasEstimator, GasStep, ESTIMATE_BACKOFF_SECS, MAX_ESTIMATE_ATTEMPTS};

#[test]
fn first_good_estimate_is_used() {
    let mut g = GasEstimator::new();
    assert_eq!(g.backoff_secs(), 0);
    assert_eq!(g.record(Some(Amount::from_u64(21000))), GasStep::Use(Amount::from_u64(21000)));
    assert_eq!(g.failed, 0);
}

#[test]
fn zero_estimate_counts_as_failure() {
    let mut g = GasEstimator::new();
    assert_eq!(g.record(Some(Amount::zero())), GasStep::Retry { failed_attempts: 1 });
    assert_eq!(g.backoff_secs(), ESTIMATE_BACKOFF_SECS);
    assert_eq!(g.record(Some(Amount::from_u64(50))), GasStep::Use(Amount::from_u64(50)));
}

#[test]
fn ten_failures_give_up_without_an_eleventh_attempt() {
    let mut g = GasEstimator::new();
    let mut attempts = 0u32;
    let mut last = GasStep::Exhausted;
    while g.may_attempt() {
        attempts += 1;
        last = g.record(None);
        if attempts < 10 {
            assert_eq!(last, GasStep::Retry { failed_attempts: attempts });
        }
    }
    assert_eq!(attempts, 10);
    assert_eq!(attempts, MAX_ESTIMATE_ATTEMPTS);
    assert_eq!(last, GasStep::Exhausted);
    assert_eq!(g.record(Some(Amount::from_u64(1))), GasStep::Exhausted);
    assert_eq!(g.failed, 10);
}

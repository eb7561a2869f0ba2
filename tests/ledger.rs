use novax_bot::amount::Amount;
use novax_bot::ledger::{affordable, shortfall, ResourceCost, WalletBalances};

fn amt(v: u64) -> Amount {
    Amount::from_u64(v)
}

fn cost(solar: u64, metal: u64, crystal: u64) -> ResourceCost {
    ResourceCost { solar: amt(solar), metal: amt(metal), crystal: amt(crystal) }
}

fn held(solar: u64, metal: u64, crystal: u64) -> WalletBalances {
    WalletBalances { metal: amt(metal), solar: amt(solar), crystal: amt(crystal) }
}

#[test]
fn affordable_when_every_component_covers() {
    assert!(affordable(&cost(5, 3, 2), &held(10, 10, 10)));
    assert!(affordable(&cost(5, 3, 2), &held(5, 3, 2)));
    assert!(affordable(&cost(0, 0, 0), &held(0, 0, 0)));
}

#[test]
fn one_short_component_is_enough_to_refuse() {
    let big = u64::MAX;
    assert!(!affordable(&cost(5, 3, 2), &held(4, big, big)));
    assert!(!affordable(&cost(5, 3, 2), &held(big, 2, big)));
    assert!(!affordable(&cost(5, 3, 2), &held(big, big, 1)));
}

#[test]
fn shortfall_is_cost_minus_held_where_lower() {
    let s = shortfall(&cost(5, 3, 2), &held(1, 10, 0));
    assert_eq!(s.solar, amt(4));
    assert_eq!(s.metal, amt(0));
    assert_eq!(s.crystal, amt(2));
}

#[test]
fn quote_order_is_solar_metal_crystal() {
    let c = ResourceCost::from_quote(&vec![amt(5), amt(3), amt(2)]).unwrap();
    assert_eq!(c, cost(5, 3, 2));
    assert_eq!(ResourceCost::from_quote(&vec![amt(5), amt(3)]), None);
    assert_eq!(ResourceCost::from_quote(&vec![]), None);
}

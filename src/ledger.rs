//! Upgrade costs, wallet balances, and affordability.

use vstd::prelude::*;
use crate::amount::Amount;

verus! {

/// A quoted upgrade cost; the chain returns it in the order solar, metal, crystal.
#[derive(Clone, Copy, Debug, PartialEq, Eq, Structural)]
pub struct ResourceCost {
    pub solar: Amount,
    pub metal: Amount,
    pub crystal: Amount,
}

/// What the wallet holds of each resource token.
#[derive(Clone, Copy, Debug, PartialEq, Eq, Structural)]
pub struct WalletBalances {
    pub metal: Amount,
    pub solar: Amount,
    pub crystal: Amount,
}

/// Per resource, how much the wallet lacks for a cost (zero where it holds enough).
#[derive(Clone, Copy, Debug, PartialEq, Eq, Structural)]
pub struct Shortfall {
    pub solar: Amount,
    pub metal: Amount,
    pub crystal: Amount,
}

/// Every component of the balances covers the matching component of the cost.
pub open spec fn covers(cost: ResourceCost, balances: WalletBalances) -> bool {
    &&& cost.metal@ <= balances.metal@
    &&& cost.solar@ <= balances.solar@
    &&& cost.crystal@ <= balances.crystal@
}

/// What is missing of `need` when `held` is on hand.
pub open spec fn gap(need: nat, held: nat) -> nat {
    if held < need {
        (need - held) as nat
    } else {
        0
    }
}

impl ResourceCost {
    /// Reads a cost quote: the first three entries are solar, metal and crystal.
    pub fn from_quote(quote: &Vec<Amount>) -> (r: Option<ResourceCost>)
        ensures
            r is Some <==> quote@.len() >= 3,
            r matches Some(c) ==> c.solar == quote@[0] && c.metal == quote@[1] && c.crystal
                == quote@[2],
    {
        if quote.len() < 3 {
            return None;
        }
        Some(ResourceCost { solar: quote[0], metal: quote[1], crystal: quote[2] })
    }
}

impl Shortfall {
    /// Nothing is missing.
    pub open spec fn is_none(self) -> bool {
        self.solar@ == 0 && self.metal@ == 0 && self.crystal@ == 0
    }
}

/// Whether the balances pay for the cost, component by component; no resource
/// stands in for another.
pub fn affordable(cost: &ResourceCost, balances: &WalletBalances) -> (r: bool)
    ensures
        r == covers(*cost, *balances),
{
    cost.metal.le(&balances.metal) && cost.solar.le(&balances.solar) && cost.crystal.le(
        &balances.crystal,
    )
}

/// For each resource, the cost minus the holding where the holding is lower, else zero.
pub fn shortfall(cost: &ResourceCost, balances: &WalletBalances) -> (r: Shortfall)
    ensures
        r.solar@ == gap(cost.solar@, balances.solar@),
        r.metal@ == gap(cost.metal@, balances.metal@),
        r.crystal@ == gap(cost.crystal@, balances.crystal@),
{
    Shortfall {
        solar: cost.solar.saturating_sub(&balances.solar),
        metal: cost.metal.saturating_sub(&balances.metal),
        crystal: cost.crystal.saturating_sub(&balances.crystal),
    }
}

/// A cost is affordable exactly when nothing is missing for it.
pub proof fn lemma_affordable_iff_no_shortfall(cost: ResourceCost, balances: WalletBalances)
    ensures
        covers(cost, balances) <==> (gap(cost.solar@, balances.solar@) == 0 && gap(
            cost.metal@,
            balances.metal@,
        ) == 0 && gap(cost.crystal@, balances.crystal@) == 0),
{
}

} // verus!

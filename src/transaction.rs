//! Assembly of the transaction that carries an action's call.

use vstd::prelude::*;
use crate::amount::Amount;

verus! {

/// Chain id of the target network, embedded against replay elsewhere.
pub const CHAIN_ID: u64 = 43114;

/// A 20-byte account or contract address.
#[derive(Clone, Copy, Debug)]
pub struct Address {
    pub bytes: [u8; 20],
}

/// Every field of a transaction but its signature.
#[derive(Clone, Debug)]
pub struct PendingTransaction {
    pub nonce: u64,
    pub to: Address,
    pub data: Vec<u8>,
    pub gas_price: Amount,
    pub gas_limit: Amount,
    pub value: Amount,
    pub chain_id: u64,
}

/// A call transaction to `to` carrying `data` and no value, on this network.
/// A zero gas limit is never submitted.
pub fn build_transaction(
    nonce: u64,
    to: Address,
    data: Vec<u8>,
    gas_price: Amount,
    gas_limit: Amount,
) -> (r: PendingTransaction)
    requires
        gas_limit@ > 0,
    ensures
        r.nonce == nonce,
        r.to == to,
        r.data@ == data@,
        r.gas_price == gas_price,
        r.gas_limit == gas_limit,
        r.value@ == 0,
        r.chain_id == CHAIN_ID,
{
    PendingTransaction {
        nonce,
        to,
        data,
        gas_price,
        gas_limit,
        value: Amount::zero(),
        chain_id: CHAIN_ID,
    }
}

} // verus!

//! Account nonces, read afresh from the chain's pending transaction count
//! before every submission.

use vstd::prelude::*;
use crate::amount::Amount;

verus! {

/// The nonce for the next transaction, given the account's pending-inclusive
/// transaction count; none where the count does not fit a `u64`.
pub open spec fn nonce_from(pending_count: nat) -> Option<u64> {
    if pending_count <= u64::MAX {
        Some(pending_count as u64)
    } else {
        None
    }
}

/// The nonce to sign with, from a freshly queried pending transaction count.
pub fn next_nonce(pending_count: &Amount) -> (r: Option<u64>)
    ensures
        r == nonce_from(pending_count@),
{
    pending_count.to_u64()
}

/// Two queries in sequence, the second seeing one more broadcast transaction,
/// give strictly increasing nonces.
pub proof fn lemma_nonce_increases_after_broadcast(before: Amount, after: Amount)
    requires
        after@ == before@ + 1,
        after@ <= u64::MAX,
    ensures
        nonce_from(before@) matches Some(a) && nonce_from(after@) matches Some(b) && a < b,
{
}

} // verus!

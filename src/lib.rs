//! Decision logic for an automated player of an on-chain planet game:
//! affordability of building upgrades, bounded gas estimation, nonce
//! sequencing, transaction assembly, receipt watching, and the per-action
//! planner that sequences them.

pub mod amount;
pub mod ledger;
pub mod gas;
pub mod nonce;
pub mod transaction;
pub mod watcher;
pub mod metadata;
pub mod planner;

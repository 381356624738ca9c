//! Standard gossip topics for SilverBitcoin

use vstd::prelude::*;

verus! {

/// Transaction propagation topic
pub const TRANSACTIONS: &'static str = "silverbitcoin/transactions/1.0.0";

/// Batch propagation topic
pub const BATCHES: &'static str = "silverbitcoin/batches/1.0.0";

/// Work package distribution topic
pub const WORK_PACKAGES: &'static str = "silverbitcoin/work-packages/1.0.0";

/// Miner share submission topic
pub const MINER_SHARES: &'static str = "silverbitcoin/miner-shares/1.0.0";

} // verus!

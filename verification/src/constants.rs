//! Configuration limits shared across the lottery core.

use vstd::prelude::*;

verus! {

/// Basis points in a whole: 10000 bps = 100%.
pub const BPS_DENOMINATOR: u64 = 10000;

/// Highest platform fee a registry may be configured with (10%).
pub const MAX_PLATFORM_FEE_BPS: u16 = 1000;

/// Highest bonus-pool fee a registry may be configured with (10%).
pub const MAX_BONUS_POOL_FEE_BPS: u16 = 1000;

/// Commission assigned to a pool's creator at creation time.
pub const DEFAULT_COMMISSION_BPS: u16 = 0;

/// Most creators a registry's allow-list may hold.
pub const MAX_CREATORS: usize = 100;

/// Most unretired tickets one user may hold in one pool.
pub const MAX_TICKETS_PER_USER: u64 = 100;

} // verus!

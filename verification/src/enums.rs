//! Pool lifecycle states.

use vstd::prelude::*;

verus! {

/// Lifecycle of a single lottery pool.
///
/// `Active` accepts purchases; `PoolFull` means the sold count reached the
/// pool's capacity and purchases are blocked; `Completed` is terminal, set
/// exactly once by a successful draw.  The only backward transition is
/// `PoolFull -> Active`, triggered when a cancellation drops the sold count
/// below capacity.
#[derive(Clone, Copy, Debug, PartialEq, Eq, Structural)]
pub enum PoolStatus {
    Active,
    PoolFull,
    Completed,
}

} // verus!

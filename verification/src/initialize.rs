//! Creation of the global registry.

use vstd::prelude::*;

use crate::constants::{MAX_BONUS_POOL_FEE_BPS, MAX_PLATFORM_FEE_BPS};
use crate::errors::FortuneXError;
use crate::state::{AccountId, GlobalState};

verus! {

/// Creates the registry, done once by the controlling authority.
///
/// Both fee rates must be within their 10% caps; the platform rate is
/// checked first.  The authority starts as the only allow-listed creator
/// and no pools exist yet.
pub fn initialize(
    authority: AccountId,
    platform_wallet: AccountId,
    usdc_mint: AccountId,
    platform_fee_bps: u16,
    bonus_pool_fee_bps: u16,
) -> (r: Result<GlobalState, FortuneXError>)
    ensures
        r is Ok <==> (platform_fee_bps <= MAX_PLATFORM_FEE_BPS && bonus_pool_fee_bps
            <= MAX_BONUS_POOL_FEE_BPS),
        platform_fee_bps > MAX_PLATFORM_FEE_BPS ==> r == Err::<GlobalState, FortuneXError>(
            FortuneXError::InvalidPlatformFee,
        ),
        platform_fee_bps <= MAX_PLATFORM_FEE_BPS && bonus_pool_fee_bps > MAX_BONUS_POOL_FEE_BPS
            ==> r == Err::<GlobalState, FortuneXError>(FortuneXError::InvalidBonusPoolFee),
        r matches Ok(g) ==> {
            &&& g.wf()
            &&& g.authority == authority
            &&& g.platform_wallet == platform_wallet
            &&& g.usdc_mint == usdc_mint
            &&& g.platform_fee_bps == platform_fee_bps
            &&& g.bonus_pool_fee_bps == bonus_pool_fee_bps
            &&& g.pools_count == 0
            &&& g.creators_whitelist@ =~= seq![authority]
        },
{
    match GlobalState::validate_platform_fee_bps(platform_fee_bps) {
        Ok(_) => (),
        Err(e) => {
            return Err(e);
        },
    }
    match GlobalState::validate_bonus_pool_fee_bps(bonus_pool_fee_bps) {
        Ok(_) => (),
        Err(e) => {
            return Err(e);
        },
    }
    let mut creators_whitelist: Vec<AccountId> = Vec::new();
    creators_whitelist.push(authority);
    let g = GlobalState {
        authority,
        platform_wallet,
        usdc_mint,
        platform_fee_bps,
        bonus_pool_fee_bps,
        pools_count: 0,
        creators_whitelist,
    };
    proof {
        assert(g.creators_whitelist@ =~= seq![authority]);
    }
    Ok(g)
}

} // verus!

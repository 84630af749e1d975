//! Configuration updates to the global registry.

use vstd::prelude::*;

use crate::constants::{MAX_BONUS_POOL_FEE_BPS, MAX_PLATFORM_FEE_BPS};
use crate::errors::FortuneXError;
use crate::state::{AccountId, GlobalState};

verus! {

/// Which registry fields to change; `None` leaves a field as it is.
#[derive(Clone, Copy, Debug, PartialEq, Eq, Default)]
pub struct UpdateGlobalStateArgs {
    pub new_platform_wallet: Option<AccountId>,
    pub new_usdc_mint: Option<AccountId>,
    pub new_platform_fee_bps: Option<u16>,
    pub new_bonus_pool_fee_bps: Option<u16>,
}

/// Applies the requested configuration changes, all or none.
///
/// Only the registry's authority may call; a requested fee rate above its
/// cap rejects the whole update before anything is written, the platform
/// rate checked first.
pub fn update_global_state(
    global: &mut GlobalState,
    authority: AccountId,
    args: UpdateGlobalStateArgs,
) -> (r: Result<(), FortuneXError>)
    requires
        old(global).wf(),
    ensures
        final(global).wf(),
        r is Ok <==> (authority == old(global).authority && (args.new_platform_fee_bps matches Some(
            b,
        ) ==> b <= MAX_PLATFORM_FEE_BPS) && (args.new_bonus_pool_fee_bps matches Some(b) ==> b
            <= MAX_BONUS_POOL_FEE_BPS)),
        authority != old(global).authority ==> r == Err::<(), FortuneXError>(
            FortuneXError::Unauthorized,
        ),
        authority == old(global).authority && (args.new_platform_fee_bps matches Some(b) && b
            > MAX_PLATFORM_FEE_BPS) ==> r == Err::<(), FortuneXError>(
            FortuneXError::InvalidPlatformFee,
        ),
        authority == old(global).authority && (args.new_platform_fee_bps matches Some(b) ==> b
            <= MAX_PLATFORM_FEE_BPS) && (args.new_bonus_pool_fee_bps matches Some(b) && b
            > MAX_BONUS_POOL_FEE_BPS) ==> r == Err::<(), FortuneXError>(
            FortuneXError::InvalidBonusPoolFee,
        ),
        r is Err ==> *final(global) == *old(global),
        r is Ok ==> {
            &&& final(global).platform_wallet == (match args.new_platform_wallet {
                Some(w) => w,
                None => old(global).platform_wallet,
            })
            &&& final(global).usdc_mint == (match args.new_usdc_mint {
                Some(m) => m,
                None => old(global).usdc_mint,
            })
            &&& final(global).platform_fee_bps == (match args.new_platform_fee_bps {
                Some(b) => b,
                None => old(global).platform_fee_bps,
            })
            &&& final(global).bonus_pool_fee_bps == (match args.new_bonus_pool_fee_bps {
                Some(b) => b,
                None => old(global).bonus_pool_fee_bps,
            })
            &&& final(global).authority == old(global).authority
            &&& final(global).pools_count == old(global).pools_count
            &&& final(global).creators_whitelist@ == old(global).creators_whitelist@
        },
{
    if authority != global.authority {
        return Err(FortuneXError::Unauthorized);
    }
    if let Some(bps) = args.new_platform_fee_bps {
        match GlobalState::validate_platform_fee_bps(bps) {
            Ok(_) => (),
            Err(e) => {
                return Err(e);
            },
        }
    }
    if let Some(bps) = args.new_bonus_pool_fee_bps {
        match GlobalState::validate_bonus_pool_fee_bps(bps) {
            Ok(_) => (),
            Err(e) => {
                return Err(e);
            },
        }
    }
    if let Some(wallet) = args.new_platform_wallet {
        global.platform_wallet = wallet;
    }
    if let Some(mint) = args.new_usdc_mint {
        global.usdc_mint = mint;
    }
    if let Some(bps) = args.new_platform_fee_bps {
        global.platform_fee_bps = bps;
    }
    if let Some(bps) = args.new_bonus_pool_fee_bps {
        global.bonus_pool_fee_bps = bps;
    }
    Ok(())
}

} // verus!

use fortunex::{
    initialize, update_global_state, update_whitelist, AccountId, FortuneXError, GlobalState,
    UpdateGlobalStateArgs,
};

fn registry() -> GlobalState {
    initialize(AccountId(1), AccountId(2), AccountId(3), 100, 100).unwrap()
}

#[test]
fn initialize_sets_fields_and_whitelists_authority() {
    let g = registry();
    assert_eq!(g.authority, AccountId(1));
    assert_eq!(g.platform_wallet, AccountId(2));
    assert_eq!(g.usdc_mint, AccountId(3));
    assert_eq!(g.platform_fee_bps, 100);
    assert_eq!(g.bonus_pool_fee_bps, 100);
    assert_eq!(g.pools_count, 0);
    assert_eq!(g.creators_whitelist, vec![AccountId(1)]);
    assert!(g.is_creator_whitelisted(&AccountId(1)));
    assert!(!g.is_creator_whitelisted(&AccountId(9)));
}

#[test]
fn initialize_rejects_platform_fee_above_cap() {
    let r = initialize(AccountId(1), AccountId(2), AccountId(3), 1001, 0);
    assert_eq!(r.unwrap_err(), FortuneXError::InvalidPlatformFee);
}

#[test]
fn initialize_rejects_bonus_fee_above_cap() {
    let r = initialize(AccountId(1), AccountId(2), AccountId(3), 1000, 1001);
    assert_eq!(r.unwrap_err(), FortuneXError::InvalidBonusPoolFee);
}

#[test]
fn add_and_remove_creator() {
    let mut g = registry();
    assert!(g.add_creator(AccountId(5)).is_ok());
    assert!(g.is_creator_whitelisted(&AccountId(5)));
    assert_eq!(
        g.add_creator(AccountId(5)).unwrap_err(),
        FortuneXError::CreatorAlreadyWhitelisted
    );
    assert!(g.remove_creator(&AccountId(5)).is_ok());
    assert!(!g.is_creator_whitelisted(&AccountId(5)));
    assert_eq!(
        g.remove_creator(&AccountId(5)).unwrap_err(),
        FortuneXError::CreatorNotWhitelisted
    );
}

#[test]
fn whitelist_capacity_is_one_hundred() {
    let mut g = registry();
    for i in 0..99u64 {
        assert!(g.add_creator(AccountId(1000 + i)).is_ok());
    }
    assert_eq!(g.creators_whitelist.len(), 100);
    assert_eq!(
        g.add_creator(AccountId(5000)).unwrap_err(),
        FortuneXError::WhitelistFull
    );
}

#[test]
fn update_whitelist_requires_authority() {
    let mut g = registry();
    let r = update_whitelist(&mut g, AccountId(9), AccountId(5), true);
    assert_eq!(r.unwrap_err(), FortuneXError::Unauthorized);
    assert!(!g.is_creator_whitelisted(&AccountId(5)));
}

#[test]
fn update_whitelist_adds_and_removes() {
    let mut g = registry();
    assert!(update_whitelist(&mut g, AccountId(1), AccountId(5), true).is_ok());
    assert!(g.is_creator_whitelisted(&AccountId(5)));
    assert_eq!(
        update_whitelist(&mut g, AccountId(1), AccountId(5), true).unwrap_err(),
        FortuneXError::CreatorAlreadyWhitelisted
    );
    assert!(update_whitelist(&mut g, AccountId(1), AccountId(5), false).is_ok());
    assert_eq!(
        update_whitelist(&mut g, AccountId(1), AccountId(5), false).unwrap_err(),
        FortuneXError::CreatorNotWhitelisted
    );
}

#[test]
fn update_global_state_applies_requested_fields() {
    let mut g = registry();
    let args = UpdateGlobalStateArgs {
        new_platform_wallet: Some(AccountId(20)),
        new_usdc_mint: None,
        new_platform_fee_bps: Some(250),
        new_bonus_pool_fee_bps: None,
    };
    assert!(update_global_state(&mut g, AccountId(1), args).is_ok());
    assert_eq!(g.platform_wallet, AccountId(20));
    assert_eq!(g.usdc_mint, AccountId(3));
    assert_eq!(g.platform_fee_bps, 250);
    assert_eq!(g.bonus_pool_fee_bps, 100);
}

#[test]
fn update_global_state_requires_authority() {
    let mut g = registry();
    let args = UpdateGlobalStateArgs {
        new_platform_wallet: Some(AccountId(20)),
        new_usdc_mint: None,
        new_platform_fee_bps: None,
        new_bonus_pool_fee_bps: None,
    };
    assert_eq!(
        update_global_state(&mut g, AccountId(9), args).unwrap_err(),
        FortuneXError::Unauthorized
    );
    assert_eq!(g.platform_wallet, AccountId(2));
}

#[test]
fn update_global_state_rejects_bad_fees_without_writing() {
    let mut g = registry();
    let args = UpdateGlobalStateArgs {
        new_platform_wallet: Some(AccountId(20)),
        new_usdc_mint: None,
        new_platform_fee_bps: Some(1001),
        new_bonus_pool_fee_bps: None,
    };
    assert_eq!(
        update_global_state(&mut g, AccountId(1), args).unwrap_err(),
        FortuneXError::InvalidPlatformFee
    );
    // the wallet change was requested alongside the bad rate: nothing applied
    assert_eq!(g.platform_wallet, AccountId(2));
    let args = UpdateGlobalStateArgs {
        new_platform_wallet: None,
        new_usdc_mint: None,
        new_platform_fee_bps: None,
        new_bonus_pool_fee_bps: Some(1001),
    };
    assert_eq!(
        update_global_state(&mut g, AccountId(1), args).unwrap_err(),
        FortuneXError::InvalidBonusPoolFee
    );
}

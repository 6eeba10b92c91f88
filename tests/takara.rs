use wexel::takara::{
    claim_takara, get_mining_stats, initialize, set_oracle_authority, set_paused, update_price,
    ClaimRecord, ClaimTakara, GetMiningStats, Initialize, MiningStats, OracleAuthorityChanged,
    PauseStatusChanged, PriceUpdated, SetOracleAuthority, SetPaused, TakaraClaimed, TakaraConfig,
    TakaraError, TakaraInitialized, UpdatePrice, INITIAL_PRICE_USD,
};
use wexel::Pubkey;

fn key(n: u128) -> Pubkey {
    Pubkey { high: 1, low: n }
}

fn blank_config() -> TakaraConfig {
    TakaraConfig {
        authority: key(0),
        oracle_authority: key(0),
        token_mint: key(0),
        mining_vault: key(0),
        total_supply: 0,
        mining_pool_total: 0,
        mining_pool_remaining: 0,
        mining_pool_distributed: 0,
        internal_price_usd: 0,
        is_initialized: false,
        is_paused: false,
        created_at: 0,
        token_name: String::new(),
        token_symbol: String::new(),
        bump: 0,
        mining_vault_bump: 0,
    }
}

fn initialized(total_supply: u64) -> TakaraConfig {
    let mut ctx = Initialize {
        authority: key(1),
        takara_mint: key(2),
        mining_vault: key(3),
        takara_config: blank_config(),
        config_bump: 254,
        mining_vault_bump: 253,
    };
    initialize(&mut ctx, total_supply, "Takara".to_string(), "TKR".to_string(), 77).unwrap();
    ctx.takara_config
}

fn blank_record() -> ClaimRecord {
    ClaimRecord {
        deposit_id: 0,
        user: key(0),
        amount: 0,
        nonce: 0,
        claimed_at: 0,
        is_claimed: false,
        bump: 0,
    }
}

fn claim_ctx(config: TakaraConfig) -> ClaimTakara {
    ClaimTakara {
        user: key(9),
        oracle: key(1),
        takara_mint: key(2),
        takara_config: config,
        claim_record: blank_record(),
        claim_record_bump: 250,
    }
}

#[test]
fn initialize_splits_supply() {
    let mut ctx = Initialize {
        authority: key(1),
        takara_mint: key(2),
        mining_vault: key(3),
        takara_config: blank_config(),
        config_bump: 254,
        mining_vault_bump: 253,
    };
    let r = initialize(&mut ctx, 1_000_001, "Takara".to_string(), "TKR".to_string(), 77);
    assert_eq!(
        r,
        Ok(TakaraInitialized {
            total_supply: 1_000_001,
            mining_allocation: 600_000,
            admin_allocation: 400_000,
            token_mint: key(2),
            mining_vault: key(3),
            initialized_at: 77
        })
    );
    let c = &ctx.takara_config;
    assert_eq!(c.authority, key(1));
    assert_eq!(c.oracle_authority, key(1));
    assert_eq!(c.mining_pool_total, 600_000);
    assert_eq!(c.mining_pool_remaining, 600_000);
    assert_eq!(c.mining_pool_distributed, 0);
    assert_eq!(c.internal_price_usd, INITIAL_PRICE_USD);
    assert_eq!(c.internal_price_usd, 100_000);
    assert!(c.is_initialized && !c.is_paused);
    assert_eq!(c.token_name, "Takara");
    assert_eq!(c.token_symbol, "TKR");
    assert_eq!((c.bump, c.mining_vault_bump, c.created_at), (254, 253, 77));
}

#[test]
fn initialize_overflow() {
    let mut ctx = Initialize {
        authority: key(1),
        takara_mint: key(2),
        mining_vault: key(3),
        takara_config: blank_config(),
        config_bump: 0,
        mining_vault_bump: 0,
    };
    let r = initialize(&mut ctx, u64::MAX / 10, "T".to_string(), "T".to_string(), 0);
    assert_eq!(r, Err(TakaraError::MathOverflow));
    assert!(!ctx.takara_config.is_initialized);
}

#[test]
fn claim_takara_pays_once() {
    let mut ctx = claim_ctx(initialized(1_000));
    let r = claim_takara(&mut ctx, 100, 42, 7, 500);
    assert_eq!(
        r,
        Ok(TakaraClaimed { user: key(9), deposit_id: 42, amount: 100, remaining_pool: 500, claimed_at: 500 })
    );
    assert_eq!(ctx.takara_config.mining_pool_remaining, 500);
    assert_eq!(ctx.takara_config.mining_pool_distributed, 100);
    assert_eq!(
        ctx.claim_record,
        ClaimRecord { deposit_id: 42, user: key(9), amount: 100, nonce: 7, claimed_at: 500, is_claimed: true, bump: 250 }
    );
    assert_eq!(claim_takara(&mut ctx, 100, 42, 7, 501), Err(TakaraError::AlreadyClaimed));
    assert_eq!(ctx.takara_config.mining_pool_remaining, 500);
}

#[test]
fn claim_takara_errors() {
    let mut ctx = claim_ctx(initialized(1_000));
    assert_eq!(claim_takara(&mut ctx, 0, 1, 1, 0), Err(TakaraError::InvalidAmount));
    assert_eq!(claim_takara(&mut ctx, 601, 1, 1, 0), Err(TakaraError::MiningPoolExhausted));
    assert!(claim_takara(&mut ctx, 600, 1, 1, 0).is_ok());
    assert_eq!(ctx.takara_config.mining_pool_remaining, 0);
    let mut wrong_oracle = claim_ctx(initialized(1_000));
    wrong_oracle.oracle = key(5);
    assert_eq!(claim_takara(&mut wrong_oracle, 10, 1, 1, 0), Err(TakaraError::Unauthorized));
    let mut wrong_mint = claim_ctx(initialized(1_000));
    wrong_mint.takara_mint = key(5);
    assert_eq!(claim_takara(&mut wrong_mint, 10, 1, 1, 0), Err(TakaraError::InvalidMint));
    let mut paused = claim_ctx(initialized(1_000));
    paused.takara_config.is_paused = true;
    assert_eq!(claim_takara(&mut paused, 10, 1, 1, 0), Err(TakaraError::ProgramPaused));
    let mut full = claim_ctx(initialized(1_000));
    full.takara_config.mining_pool_distributed = u64::MAX;
    assert_eq!(claim_takara(&mut full, 10, 1, 1, 0), Err(TakaraError::MathOverflow));
    assert_eq!(full.takara_config.mining_pool_remaining, 600);
    assert!(!full.claim_record.is_claimed);
}

#[test]
fn price_updates_by_oracle_only() {
    let mut ctx = UpdatePrice { oracle: key(1), takara_config: initialized(100) };
    assert_eq!(
        update_price(&mut ctx, 250_000),
        Ok(PriceUpdated { old_price: 100_000, new_price: 250_000, updated_by: key(1) })
    );
    assert_eq!(ctx.takara_config.internal_price_usd, 250_000);
    assert_eq!(update_price(&mut ctx, 0), Err(TakaraError::InvalidAmount));
    ctx.oracle = key(8);
    assert_eq!(update_price(&mut ctx, 5), Err(TakaraError::Unauthorized));
    assert_eq!(ctx.takara_config.internal_price_usd, 250_000);
}

#[test]
fn oracle_handover() {
    let mut ctx = SetOracleAuthority { authority: key(1), takara_config: initialized(100) };
    assert_eq!(
        set_oracle_authority(&mut ctx, key(6)),
        Ok(OracleAuthorityChanged { old_oracle: key(1), new_oracle: key(6) })
    );
    assert_eq!(ctx.takara_config.oracle_authority, key(6));
    let mut up = UpdatePrice { oracle: key(1), takara_config: ctx.takara_config.clone() };
    assert_eq!(update_price(&mut up, 5), Err(TakaraError::Unauthorized));
    ctx.authority = key(6);
    assert_eq!(set_oracle_authority(&mut ctx, key(7)), Err(TakaraError::Unauthorized));
}

#[test]
fn pause_and_resume() {
    let mut ctx = SetPaused { authority: key(1), takara_config: initialized(1_000) };
    assert_eq!(set_paused(&mut ctx, true), Ok(PauseStatusChanged { paused: true, changed_by: key(1) }));
    let mut claim = claim_ctx(ctx.takara_config.clone());
    assert_eq!(claim_takara(&mut claim, 1, 1, 1, 0), Err(TakaraError::ProgramPaused));
    assert!(set_paused(&mut ctx, false).is_ok());
    assert!(!ctx.takara_config.is_paused);
    ctx.authority = key(4);
    assert_eq!(set_paused(&mut ctx, true), Err(TakaraError::Unauthorized));
    assert!(!ctx.takara_config.is_paused);
}

#[test]
fn mining_stats_reflect_config() {
    let mut c = claim_ctx(initialized(1_000));
    claim_takara(&mut c, 25, 3, 3, 0).unwrap();
    let stats = get_mining_stats(&GetMiningStats { takara_config: c.takara_config.clone() });
    assert_eq!(
        stats,
        Ok(MiningStats {
            total_supply: 1_000,
            mining_pool_total: 600,
            mining_pool_remaining: 575,
            mining_pool_distributed: 25,
            internal_price_usd: 100_000,
            is_paused: false
        })
    );
}

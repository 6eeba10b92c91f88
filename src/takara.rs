//! The reward token's distribution ledger: its supply is split between a
//! mining pool and an admin allocation, and the mining pool pays out claims
//! that the oracle co-signs, each deposit and nonce once.
use vstd::prelude::*;
use crate::outcome::settles;
use crate::rates::{fits_u64, Pubkey};

verus! {

/// Percent of the supply that goes to the mining pool.
pub const MINING_POOL_PERCENT: u64 = 60;
/// Percent of the supply that goes to the admin wallet.
pub const ADMIN_POOL_PERCENT: u64 = 40;
/// Decimal places of the token.
pub const TAKARA_DECIMALS: u8 = 6;
/// Price of the token at initialization, in millionths of a dollar.
pub const INITIAL_PRICE_USD: u64 = 100000;

/// Why a token operation was refused.
#[derive(Clone, Copy, Debug, PartialEq, Eq, Structural)]
pub enum TakaraError {
    /// Claims are paused.
    ProgramPaused,
    /// A claim of nothing, or a price of zero.
    InvalidAmount,
    /// The mining pool holds less than the claim.
    MiningPoolExhausted,
    /// This deposit and nonce have already been paid.
    AlreadyClaimed,
    /// The signer is not the authority or the oracle.
    Unauthorized,
    /// A checked sum or product left the range of `u64`.
    MathOverflow,
    /// The mint named is not the token's mint.
    InvalidMint,
    /// The oracle's co-signature does not hold.
    InvalidSignature,
}

/// The token's configuration and the mining pool's counters.
#[derive(Clone, Debug)]
pub struct TakaraConfig {
    pub authority: Pubkey,
    pub oracle_authority: Pubkey,
    pub token_mint: Pubkey,
    pub mining_vault: Pubkey,
    pub total_supply: u64,
    pub mining_pool_total: u64,
    pub mining_pool_remaining: u64,
    pub mining_pool_distributed: u64,
    pub internal_price_usd: u64,
    pub is_initialized: bool,
    pub is_paused: bool,
    pub created_at: i64,
    pub token_name: String,
    pub token_symbol: String,
    pub bump: u8,
    pub mining_vault_bump: u8,
}

/// One paid claim, kept so that the same deposit and nonce pay once.
#[derive(Clone, Copy, Debug, PartialEq, Eq, Structural)]
pub struct ClaimRecord {
    pub deposit_id: u64,
    pub user: Pubkey,
    pub amount: u64,
    pub nonce: u64,
    pub claimed_at: i64,
    pub is_claimed: bool,
    pub bump: u8,
}

/// `percent` percent of `amount`, truncated toward zero.
pub open spec fn percent_of(amount: int, percent: int) -> int {
    amount * percent / 100
}

// ---------------------------------------------------------------- initialize

/// The accounts an initialization acts on.
#[derive(Clone, Debug)]
pub struct Initialize {
    pub authority: Pubkey,
    pub takara_mint: Pubkey,
    pub mining_vault: Pubkey,
    pub takara_config: TakaraConfig,
    pub config_bump: u8,
    pub mining_vault_bump: u8,
}

/// Record of an initialization: the amounts to mint to the mining vault and
/// to the admin wallet.
#[derive(Clone, Copy, Debug, PartialEq, Eq, Structural)]
pub struct TakaraInitialized {
    pub total_supply: u64,
    pub mining_allocation: u64,
    pub admin_allocation: u64,
    pub token_mint: Pubkey,
    pub mining_vault: Pubkey,
    pub initialized_at: i64,
}

/// Setting up the token with `total_supply` at time `now`.
pub open spec fn initialize_outcome(
    ctx: Initialize,
    total_supply: u64,
    token_name: String,
    token_symbol: String,
    now: i64,
) -> Result<(Initialize, TakaraInitialized), TakaraError> {
    let mining = percent_of(total_supply as int, MINING_POOL_PERCENT as int) as u64;
    let admin = percent_of(total_supply as int, ADMIN_POOL_PERCENT as int) as u64;
    if !fits_u64(total_supply * MINING_POOL_PERCENT) {
        Err(TakaraError::MathOverflow)
    } else {
        let config = TakaraConfig {
            authority: ctx.authority,
            oracle_authority: ctx.authority,
            token_mint: ctx.takara_mint,
            mining_vault: ctx.mining_vault,
            total_supply,
            mining_pool_total: mining,
            mining_pool_remaining: mining,
            mining_pool_distributed: 0,
            internal_price_usd: INITIAL_PRICE_USD,
            is_initialized: true,
            is_paused: false,
            created_at: now,
            token_name,
            token_symbol,
            bump: ctx.config_bump,
            mining_vault_bump: ctx.mining_vault_bump,
        };
        Ok(
            (
                Initialize { takara_config: config, ..ctx },
                TakaraInitialized {
                    total_supply,
                    mining_allocation: mining,
                    admin_allocation: admin,
                    token_mint: ctx.takara_mint,
                    mining_vault: ctx.mining_vault,
                    initialized_at: now,
                },
            ),
        )
    }
}

/// Writes the token's configuration: the authority is also the first
/// oracle, the mining pool holds its percent of the supply, nothing is paid
/// out yet. The record names the amounts to mint.
pub fn initialize(
    ctx: &mut Initialize,
    total_supply: u64,
    token_name: String,
    token_symbol: String,
    now: i64,
) -> (r: Result<TakaraInitialized, TakaraError>)
    ensures
        settles(
            initialize_outcome(*old(ctx), total_supply, token_name, token_symbol, now),
            *old(ctx),
            *final(ctx),
            r,
        ),
{
    let mining_allocation = match total_supply.checked_mul(MINING_POOL_PERCENT) {
        Some(v) => v / 100,
        None => return Err(TakaraError::MathOverflow),
    };
    let admin_allocation = total_supply * ADMIN_POOL_PERCENT / 100;
    ctx.takara_config = TakaraConfig {
        authority: ctx.authority,
        oracle_authority: ctx.authority,
        token_mint: ctx.takara_mint,
        mining_vault: ctx.mining_vault,
        total_supply,
        mining_pool_total: mining_allocation,
        mining_pool_remaining: mining_allocation,
        mining_pool_distributed: 0,
        internal_price_usd: INITIAL_PRICE_USD,
        is_initialized: true,
        is_paused: false,
        created_at: now,
        token_name,
        token_symbol,
        bump: ctx.config_bump,
        mining_vault_bump: ctx.mining_vault_bump,
    };
    Ok(
        TakaraInitialized {
            total_supply,
            mining_allocation,
            admin_allocation,
            token_mint: ctx.takara_mint,
            mining_vault: ctx.mining_vault,
            initialized_at: now,
        },
    )
}

// ---------------------------------------------------------------- claim

/// The accounts a token claim acts on: the claimant, the co-signing oracle,
/// the mint named, the configuration, and the record of this deposit and
/// nonce.
#[derive(Clone, Debug)]
pub struct ClaimTakara {
    pub user: Pubkey,
    pub oracle: Pubkey,
    pub takara_mint: Pubkey,
    pub takara_config: TakaraConfig,
    pub claim_record: ClaimRecord,
    pub claim_record_bump: u8,
}

/// Record of a token claim: the amount to move from the mining vault.
#[derive(Clone, Copy, Debug, PartialEq, Eq, Structural)]
pub struct TakaraClaimed {
    pub user: Pubkey,
    pub deposit_id: u64,
    pub amount: u64,
    pub remaining_pool: u64,
    pub claimed_at: i64,
}

/// Paying `reward_amount` from the mining pool for a deposit and nonce.
pub open spec fn claim_takara_outcome(
    ctx: ClaimTakara,
    reward_amount: u64,
    deposit_id: u64,
    nonce: u64,
    now: i64,
) -> Result<(ClaimTakara, TakaraClaimed), TakaraError> {
    let c = ctx.takara_config;
    let remaining = (c.mining_pool_remaining - reward_amount) as u64;
    if ctx.oracle != c.oracle_authority {
        Err(TakaraError::Unauthorized)
    } else if ctx.takara_mint != c.token_mint {
        Err(TakaraError::InvalidMint)
    } else if c.is_paused {
        Err(TakaraError::ProgramPaused)
    } else if reward_amount == 0 {
        Err(TakaraError::InvalidAmount)
    } else if c.mining_pool_remaining < reward_amount {
        Err(TakaraError::MiningPoolExhausted)
    } else if ctx.claim_record.is_claimed {
        Err(TakaraError::AlreadyClaimed)
    } else if !fits_u64(c.mining_pool_distributed + reward_amount) {
        Err(TakaraError::MathOverflow)
    } else {
        Ok(
            (
                ClaimTakara {
                    takara_config: TakaraConfig {
                        mining_pool_remaining: remaining,
                        mining_pool_distributed: (c.mining_pool_distributed
                            + reward_amount) as u64,
                        ..c
                    },
                    claim_record: ClaimRecord {
                        deposit_id,
                        user: ctx.user,
                        amount: reward_amount,
                        nonce,
                        claimed_at: now,
                        is_claimed: true,
                        bump: ctx.claim_record_bump,
                    },
                    ..ctx
                },
                TakaraClaimed {
                    user: ctx.user,
                    deposit_id,
                    amount: reward_amount,
                    remaining_pool: remaining,
                    claimed_at: now,
                },
            ),
        )
    }
}

/// Pays a co-signed reward from the mining pool, once for each deposit and
/// nonce. The record names the amount to transfer to the claimant.
pub fn claim_takara(
    ctx: &mut ClaimTakara,
    reward_amount: u64,
    deposit_id: u64,
    nonce: u64,
    now: i64,
) -> (r: Result<TakaraClaimed, TakaraError>)
    ensures
        settles(
            claim_takara_outcome(*old(ctx), reward_amount, deposit_id, nonce, now),
            *old(ctx),
            *final(ctx),
            r,
        ),
{
    if ctx.oracle != ctx.takara_config.oracle_authority {
        return Err(TakaraError::Unauthorized);
    }
    if ctx.takara_mint != ctx.takara_config.token_mint {
        return Err(TakaraError::InvalidMint);
    }
    if ctx.takara_config.is_paused {
        return Err(TakaraError::ProgramPaused);
    }
    if reward_amount == 0 {
        return Err(TakaraError::InvalidAmount);
    }
    if ctx.takara_config.mining_pool_remaining < reward_amount {
        return Err(TakaraError::MiningPoolExhausted);
    }
    if ctx.claim_record.is_claimed {
        return Err(TakaraError::AlreadyClaimed);
    }
    let distributed = match ctx.takara_config.mining_pool_distributed.checked_add(reward_amount) {
        Some(v) => v,
        None => return Err(TakaraError::MathOverflow),
    };
    let remaining = ctx.takara_config.mining_pool_remaining - reward_amount;
    ctx.claim_record = ClaimRecord {
        deposit_id,
        user: ctx.user,
        amount: reward_amount,
        nonce,
        claimed_at: now,
        is_claimed: true,
        bump: ctx.claim_record_bump,
    };
    ctx.takara_config.mining_pool_remaining = remaining;
    ctx.takara_config.mining_pool_distributed = distributed;
    Ok(
        TakaraClaimed {
            user: ctx.user,
            deposit_id,
            amount: reward_amount,
            remaining_pool: remaining,
            claimed_at: now,
        },
    )
}

// ---------------------------------------------------------------- administration

/// The accounts a price update acts on.
#[derive(Clone, Debug)]
pub struct UpdatePrice {
    pub oracle: Pubkey,
    pub takara_config: TakaraConfig,
}

/// Record of a price update.
#[derive(Clone, Copy, Debug, PartialEq, Eq, Structural)]
pub struct PriceUpdated {
    pub old_price: u64,
    pub new_price: u64,
    pub updated_by: Pubkey,
}

/// Setting the internal price to `new_price_usd`.
pub open spec fn update_price_outcome(ctx: UpdatePrice, new_price_usd: u64) -> Result<
    (UpdatePrice, PriceUpdated),
    TakaraError,
> {
    let c = ctx.takara_config;
    if ctx.oracle != c.oracle_authority {
        Err(TakaraError::Unauthorized)
    } else if new_price_usd == 0 {
        Err(TakaraError::InvalidAmount)
    } else {
        Ok(
            (
                UpdatePrice {
                    takara_config: TakaraConfig { internal_price_usd: new_price_usd, ..c },
                    ..ctx
                },
                PriceUpdated {
                    old_price: c.internal_price_usd,
                    new_price: new_price_usd,
                    updated_by: ctx.oracle,
                },
            ),
        )
    }
}

/// Sets the internal price; only the oracle may, and never to zero.
pub fn update_price(ctx: &mut UpdatePrice, new_price_usd: u64) -> (r: Result<
    PriceUpdated,
    TakaraError,
>)
    ensures
        settles(update_price_outcome(*old(ctx), new_price_usd), *old(ctx), *final(ctx), r),
{
    if ctx.oracle != ctx.takara_config.oracle_authority {
        return Err(TakaraError::Unauthorized);
    }
    if new_price_usd == 0 {
        return Err(TakaraError::InvalidAmount);
    }
    let old_price = ctx.takara_config.internal_price_usd;
    ctx.takara_config.internal_price_usd = new_price_usd;
    Ok(PriceUpdated { old_price, new_price: new_price_usd, updated_by: ctx.oracle })
}

/// The accounts a change of oracle acts on.
#[derive(Clone, Debug)]
pub struct SetOracleAuthority {
    pub authority: Pubkey,
    pub takara_config: TakaraConfig,
}

/// Record of a change of oracle.
#[derive(Clone, Copy, Debug, PartialEq, Eq, Structural)]
pub struct OracleAuthorityChanged {
    pub old_oracle: Pubkey,
    pub new_oracle: Pubkey,
}

/// Handing the oracle role to `new_oracle`.
pub open spec fn set_oracle_authority_outcome(ctx: SetOracleAuthority, new_oracle: Pubkey) -> Result<
    (SetOracleAuthority, OracleAuthorityChanged),
    TakaraError,
> {
    let c = ctx.takara_config;
    if ctx.authority != c.authority {
        Err(TakaraError::Unauthorized)
    } else {
        Ok(
            (
                SetOracleAuthority {
                    takara_config: TakaraConfig { oracle_authority: new_oracle, ..c },
                    ..ctx
                },
                OracleAuthorityChanged { old_oracle: c.oracle_authority, new_oracle },
            ),
        )
    }
}

/// Hands the oracle role to `new_oracle`; only the authority may.
pub fn set_oracle_authority(ctx: &mut SetOracleAuthority, new_oracle: Pubkey) -> (r: Result<
    OracleAuthorityChanged,
    TakaraError,
>)
    ensures
        settles(set_oracle_authority_outcome(*old(ctx), new_oracle), *old(ctx), *final(ctx), r),
{
    if ctx.authority != ctx.takara_config.authority {
        return Err(TakaraError::Unauthorized);
    }
    let old_oracle = ctx.takara_config.oracle_authority;
    ctx.takara_config.oracle_authority = new_oracle;
    Ok(OracleAuthorityChanged { old_oracle, new_oracle })
}

/// The accounts a pause or resume acts on.
#[derive(Clone, Debug)]
pub struct SetPaused {
    pub authority: Pubkey,
    pub takara_config: TakaraConfig,
}

/// Record of a pause or resume.
#[derive(Clone, Copy, Debug, PartialEq, Eq, Structural)]
pub struct PauseStatusChanged {
    pub paused: bool,
    pub changed_by: Pubkey,
}

/// Pausing (`paused`) or resuming the token's claims.
pub open spec fn set_paused_outcome(ctx: SetPaused, paused: bool) -> Result<
    (SetPaused, PauseStatusChanged),
    TakaraError,
> {
    let c = ctx.takara_config;
    if ctx.authority != c.authority {
        Err(TakaraError::Unauthorized)
    } else {
        Ok(
            (
                SetPaused { takara_config: TakaraConfig { is_paused: paused, ..c }, ..ctx },
                PauseStatusChanged { paused, changed_by: ctx.authority },
            ),
        )
    }
}

/// Pauses or resumes claims; only the authority may.
pub fn set_paused(ctx: &mut SetPaused, paused: bool) -> (r: Result<
    PauseStatusChanged,
    TakaraError,
>)
    ensures
        settles(set_paused_outcome(*old(ctx), paused), *old(ctx), *final(ctx), r),
{
    if ctx.authority != ctx.takara_config.authority {
        return Err(TakaraError::Unauthorized);
    }
    ctx.takara_config.is_paused = paused;
    Ok(PauseStatusChanged { paused, changed_by: ctx.authority })
}

/// The account the statistics are read from.
#[derive(Clone, Debug)]
pub struct GetMiningStats {
    pub takara_config: TakaraConfig,
}

/// The mining pool's counters and the token's price.
#[derive(Clone, Copy, Debug, PartialEq, Eq, Structural)]
pub struct MiningStats {
    pub total_supply: u64,
    pub mining_pool_total: u64,
    pub mining_pool_remaining: u64,
    pub mining_pool_distributed: u64,
    pub internal_price_usd: u64,
    pub is_paused: bool,
}

/// The mining pool's counters, read from the configuration.
pub fn get_mining_stats(ctx: &GetMiningStats) -> (r: Result<MiningStats, TakaraError>)
    ensures
        r == Ok::<MiningStats, TakaraError>(
            (MiningStats {
                total_supply: ctx.takara_config.total_supply,
                mining_pool_total: ctx.takara_config.mining_pool_total,
                mining_pool_remaining: ctx.takara_config.mining_pool_remaining,
                mining_pool_distributed: ctx.takara_config.mining_pool_distributed,
                internal_price_usd: ctx.takara_config.internal_price_usd,
                is_paused: ctx.takara_config.is_paused,
            }),
        ),
{
    let c = &ctx.takara_config;
    Ok(
        MiningStats {
            total_supply: c.total_supply,
            mining_pool_total: c.mining_pool_total,
            mining_pool_remaining: c.mining_pool_remaining,
            mining_pool_distributed: c.mining_pool_distributed,
            internal_price_usd: c.internal_price_usd,
            is_paused: c.is_paused,
        },
    )
}

} // verus!

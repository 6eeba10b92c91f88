//! Pools, positions, loans and the rewards vault, and the operations of a
//! position's life. Each operation is stated as a spec function from the
//! accounts it acts on to either the accounts after it and the record it
//! emits, or an error; the executable operation is proved to follow it and to
//! leave every account unchanged when it fails.
use vstd::prelude::*;
use crate::outcome::settles;
use crate::rates::{
    bp_share, daily_reward, daily_reward_of, days_between, days_elapsed, fits_u64, share_bp,
    Pubkey, BOOST_MAX_BP, BOOST_TARGET_BP, BP_DENOMINATOR, LTV_BP, MAX_APY_BP, MAX_LOCK_MONTHS,
    MIN_APY_BP, MIN_LOCK_MONTHS, SECONDS_PER_MONTH,
};

verus! {

/// Why an operation was refused.
#[derive(Clone, Copy, Debug, PartialEq, Eq, Structural)]
pub enum ErrorCode {
    /// The deposit is below the pool's minimum, nothing is claimable, or the
    /// rewards vault cannot cover the payout.
    InsufficientDeposit,
    /// The position's id is not the one named.
    WexelNotFound,
    /// Maturity has not been reached (redeem, finalize) or has already passed
    /// (accrue).
    WexelNotMatured,
    /// The pool's id is not the one named.
    InvalidPool,
    /// The base APY lies outside the allowed bounds.
    InvalidApy,
    /// The lock period lies outside the allowed bounds.
    InvalidLockPeriod,
    /// The caller does not own the position.
    Unauthorized,
    /// A checked sum or product left the range of its integer type.
    MathOverflow,
    /// A boost of zero was offered.
    InvalidBoostAmount,
    /// The boost would pass the share of principal that earns the full boost.
    BoostTargetExceeded,
    /// The position already backs an open loan.
    AlreadyCollateralized,
    /// The position backs no open loan.
    NotCollateralized,
    /// The loan the position would back is zero.
    InvalidLoanAmount,
    /// The loan has already been repaid.
    AlreadyRepaid,
    /// The repayment is below the loan amount.
    InvalidRepaymentAmount,
    /// The position has already been finalized.
    WexelAlreadyFinalized,
    /// The position has been redeemed and takes no further economic action.
    WexelAlreadyRedeemed,
}

/// Aggregate counters of one product configuration.
#[derive(Clone, Copy, Debug, PartialEq, Eq, Structural)]
pub struct Pool {
    pub id: u64,
    pub base_apy_bp: u16,
    pub lock_months: u8,
    pub min_deposit: u64,
    pub total_liquidity: u64,
    pub total_positions: u64,
}

/// One user's locked principal and its reward ledger.
#[derive(Clone, Copy, Debug, PartialEq, Eq, Structural)]
pub struct Wexel {
    pub id: u64,
    pub owner: Pubkey,
    pub pool_id: u64,
    pub principal: u64,
    pub base_apy_bp: u16,
    pub boost_apy_bp: u16,
    pub start_time: i64,
    pub end_time: i64,
    pub is_collateralized: bool,
    pub is_finalized: bool,
    pub claimed_total: u64,
    pub is_redeemed: bool,
}

/// A loan backed by one position.
#[derive(Clone, Copy, Debug, PartialEq, Eq, Structural)]
pub struct CollateralPosition {
    pub wexel_id: u64,
    pub loan_amount: u64,
    pub start_time: i64,
    pub is_repaid: bool,
}

/// The funds from which rewards are paid.
#[derive(Clone, Copy, Debug, PartialEq, Eq, Structural)]
pub struct RewardsVault {
    pub available_balance: u64,
    pub total_distributed: u64,
}

/// Whether `x` is representable as an `i64`.
pub open spec fn fits_i64(x: int) -> bool {
    i64::MIN <= x <= i64::MAX
}

/// Whether a base APY lies within the allowed bounds.
pub open spec fn apy_in_bounds(apy_bp: int) -> bool {
    MIN_APY_BP <= apy_bp <= MAX_APY_BP
}

/// Whether a lock period lies within the allowed bounds.
pub open spec fn lock_in_bounds(lock_months: int) -> bool {
    MIN_LOCK_MONTHS <= lock_months <= MAX_LOCK_MONTHS
}

impl RewardsVault {
    /// Adds `amount` from the treasury to what the vault can pay out.
    pub fn fund(&mut self, amount: u64) -> (r: Result<(), ErrorCode>)
        ensures
            fits_u64(old(self).available_balance + amount) ==> r == Ok::<(), ErrorCode>(())
                && *final(self) == (RewardsVault {
                available_balance: (old(self).available_balance + amount) as u64,
                ..*old(self)
            }),
            !fits_u64(old(self).available_balance + amount) ==> r == Err::<(), ErrorCode>(
                ErrorCode::MathOverflow,
            ) && *final(self) == *old(self),
    {
        match self.available_balance.checked_add(amount) {
            Some(v) => {
                self.available_balance = v;
                Ok(())
            },
            None => Err(ErrorCode::MathOverflow),
        }
    }
}

impl Pool {
    /// A pool with no deposits yet; refused when the base APY or the lock
    /// period lies outside the allowed bounds.
    pub fn new(id: u64, base_apy_bp: u16, lock_months: u8, min_deposit: u64) -> (r: Result<
        Pool,
        ErrorCode,
    >)
        ensures
            r is Err <==> !apy_in_bounds(base_apy_bp as int) || !lock_in_bounds(
                lock_months as int,
            ),
            !apy_in_bounds(base_apy_bp as int) ==> r == Err::<Pool, ErrorCode>(
                ErrorCode::InvalidApy,
            ),
            apy_in_bounds(base_apy_bp as int) && !lock_in_bounds(lock_months as int) ==> r
                == Err::<Pool, ErrorCode>(ErrorCode::InvalidLockPeriod),
            r is Ok ==> r == Ok::<Pool, ErrorCode>(
                (Pool {
                    id,
                    base_apy_bp,
                    lock_months,
                    min_deposit,
                    total_liquidity: 0,
                    total_positions: 0,
                }),
            ),
    {
        if base_apy_bp < MIN_APY_BP || base_apy_bp > MAX_APY_BP {
            return Err(ErrorCode::InvalidApy);
        }
        if lock_months < MIN_LOCK_MONTHS || lock_months > MAX_LOCK_MONTHS {
            return Err(ErrorCode::InvalidLockPeriod);
        }
        Ok(Pool { id, base_apy_bp, lock_months, min_deposit, total_liquidity: 0, total_positions: 0 })
    }
}

// ---------------------------------------------------------------- open

/// The accounts a deposit acts on: the signer, the pool, and the record the
/// new position is written to.
#[derive(Clone, Copy, Debug)]
pub struct Deposit {
    pub user: Pubkey,
    pub pool: Pool,
    pub wexel: Wexel,
}

/// Record of a newly opened position.
#[derive(Clone, Copy, Debug, PartialEq, Eq, Structural)]
pub struct WexelCreated {
    pub id: u64,
    pub owner: Pubkey,
    pub pool_id: u64,
    pub principal: u64,
    pub base_apy_bp: u16,
    pub start_time: i64,
    pub end_time: i64,
}

/// Opening a position of `principal` in pool `pool_id` at time `now`.
pub open spec fn deposit_outcome(ctx: Deposit, pool_id: u64, principal: u64, now: i64) -> Result<
    (Deposit, WexelCreated),
    ErrorCode,
> {
    let pool = ctx.pool;
    let end_time = now + pool.lock_months * SECONDS_PER_MONTH;
    if pool.id != pool_id {
        Err(ErrorCode::InvalidPool)
    } else if principal < pool.min_deposit {
        Err(ErrorCode::InsufficientDeposit)
    } else if !apy_in_bounds(pool.base_apy_bp as int) {
        Err(ErrorCode::InvalidApy)
    } else if !lock_in_bounds(pool.lock_months as int) {
        Err(ErrorCode::InvalidLockPeriod)
    } else if !fits_u64(pool.total_positions + 1) || !fits_u64(pool.total_liquidity + principal)
        || !fits_i64(end_time) {
        Err(ErrorCode::MathOverflow)
    } else {
        let id = (pool.total_positions + 1) as u64;
        let wexel = Wexel {
            id,
            owner: ctx.user,
            pool_id,
            principal,
            base_apy_bp: pool.base_apy_bp,
            boost_apy_bp: 0,
            start_time: now,
            end_time: end_time as i64,
            is_collateralized: false,
            is_finalized: false,
            claimed_total: 0,
            is_redeemed: false,
        };
        let pool = Pool {
            total_liquidity: (pool.total_liquidity + principal) as u64,
            total_positions: id,
            ..pool
        };
        Ok(
            (
                Deposit { pool, wexel, ..ctx },
                WexelCreated {
                    id,
                    owner: ctx.user,
                    pool_id,
                    principal,
                    base_apy_bp: pool.base_apy_bp,
                    start_time: now,
                    end_time: end_time as i64,
                },
            ),
        )
    }
}

/// Opens a position of `principal` in the pool at time `now`, owned by the
/// signer, with the next position id of the pool.
pub fn deposit(ctx: &mut Deposit, pool_id: u64, principal: u64, now: i64) -> (r: Result<
    WexelCreated,
    ErrorCode,
>)
    ensures
        settles(deposit_outcome(*old(ctx), pool_id, principal, now), *old(ctx), *final(ctx), r),
{
    let pool = ctx.pool;
    if pool.id != pool_id {
        return Err(ErrorCode::InvalidPool);
    }
    if principal < pool.min_deposit {
        return Err(ErrorCode::InsufficientDeposit);
    }
    if pool.base_apy_bp < MIN_APY_BP || pool.base_apy_bp > MAX_APY_BP {
        return Err(ErrorCode::InvalidApy);
    }
    if pool.lock_months < MIN_LOCK_MONTHS || pool.lock_months > MAX_LOCK_MONTHS {
        return Err(ErrorCode::InvalidLockPeriod);
    }
    let id = match pool.total_positions.checked_add(1) {
        Some(v) => v,
        None => return Err(ErrorCode::MathOverflow),
    };
    let total_liquidity = match pool.total_liquidity.checked_add(principal) {
        Some(v) => v,
        None => return Err(ErrorCode::MathOverflow),
    };
    let lock_secs: i64 = (pool.lock_months as u64 * SECONDS_PER_MONTH) as i64;
    let end_time = match now.checked_add(lock_secs) {
        Some(v) => v,
        None => return Err(ErrorCode::MathOverflow),
    };
    ctx.wexel = Wexel {
        id,
        owner: ctx.user,
        pool_id,
        principal,
        base_apy_bp: pool.base_apy_bp,
        boost_apy_bp: 0,
        start_time: now,
        end_time,
        is_collateralized: false,
        is_finalized: false,
        claimed_total: 0,
        is_redeemed: false,
    };
    ctx.pool.total_liquidity = total_liquidity;
    ctx.pool.total_positions = id;
    Ok(
        WexelCreated {
            id,
            owner: ctx.user,
            pool_id,
            principal,
            base_apy_bp: pool.base_apy_bp,
            start_time: now,
            end_time,
        },
    )
}

/// The reward of one day on the position, at its base and boost rates.
pub open spec fn wexel_daily_reward(w: Wexel) -> int {
    daily_reward_of(w.principal as int, w.base_apy_bp + w.boost_apy_bp)
}

/// Whether the product of the position's principal and rate fits in a `u64`.
pub open spec fn daily_reward_fits(w: Wexel) -> bool {
    fits_u64(w.principal * (w.base_apy_bp + w.boost_apy_bp))
}

/// Everything the position has earned by `now`: the daily reward times the
/// whole days since it opened.
pub open spec fn total_accrued(w: Wexel, now: int) -> int {
    wexel_daily_reward(w) * days_between(w.start_time as int, now)
}

/// What is still owed of `total`: the part not yet claimed, or nothing.
pub open spec fn unclaimed(total: int, claimed: int) -> int {
    if total > claimed {
        total - claimed
    } else {
        0
    }
}

// ---------------------------------------------------------------- boost

/// The accounts a boost acts on.
#[derive(Clone, Copy, Debug)]
pub struct ApplyBoost {
    pub user: Pubkey,
    pub wexel: Wexel,
}

/// Record of a boost.
#[derive(Clone, Copy, Debug, PartialEq, Eq, Structural)]
pub struct BoostApplied {
    pub wexel_id: u64,
    pub boost_apy_bp: u16,
    pub value: u64,
}

/// The stake value that the position's boost rate stands for.
pub open spec fn boost_value(w: Wexel) -> int {
    bp_share(w.principal as int, w.boost_apy_bp as int)
}

/// The stake value that earns the full boost.
pub open spec fn boost_target(w: Wexel) -> int {
    bp_share(w.principal as int, BOOST_TARGET_BP as int)
}

/// Boost rate for a total stake of `value` on `principal`, capped at the
/// largest boost.
pub open spec fn boost_rate_for(value: int, principal: int) -> int {
    let rate = value * (BP_DENOMINATOR as int) / principal;
    if rate < BOOST_MAX_BP {
        rate
    } else {
        BOOST_MAX_BP as int
    }
}

/// Adding a stake worth `value` to the position's boost.
pub open spec fn apply_boost_outcome(ctx: ApplyBoost, wexel_id: u64, value: u64) -> Result<
    (ApplyBoost, BoostApplied),
    ErrorCode,
> {
    let w = ctx.wexel;
    let new_value = boost_value(w) + value;
    if w.owner != ctx.user {
        Err(ErrorCode::Unauthorized)
    } else if w.id != wexel_id {
        Err(ErrorCode::WexelNotFound)
    } else if w.is_redeemed {
        Err(ErrorCode::WexelAlreadyRedeemed)
    } else if value == 0 {
        Err(ErrorCode::InvalidBoostAmount)
    } else if !fits_u64(w.principal * BOOST_TARGET_BP) || !fits_u64(w.principal * w.boost_apy_bp)
        || !fits_u64(new_value) {
        Err(ErrorCode::MathOverflow)
    } else if new_value > boost_target(w) {
        Err(ErrorCode::BoostTargetExceeded)
    } else if !fits_u64(new_value * BP_DENOMINATOR) {
        Err(ErrorCode::MathOverflow)
    } else {
        let rate = boost_rate_for(new_value, w.principal as int) as u16;
        Ok(
            (
                ApplyBoost { wexel: Wexel { boost_apy_bp: rate, ..w }, ..ctx },
                BoostApplied { wexel_id, boost_apy_bp: rate, value },
            ),
        )
    }
}

/// Adds a stake worth `value`, in the position's currency, to its boost: the
/// boost rate becomes the rate of the whole stake, up to the largest boost,
/// as long as the whole stake stays within the boost target.
pub fn apply_boost(ctx: &mut ApplyBoost, wexel_id: u64, value: u64) -> (r: Result<
    BoostApplied,
    ErrorCode,
>)
    ensures
        settles(apply_boost_outcome(*old(ctx), wexel_id, value), *old(ctx), *final(ctx), r),
{
    let w = ctx.wexel;
    if w.owner != ctx.user {
        return Err(ErrorCode::Unauthorized);
    }
    if w.id != wexel_id {
        return Err(ErrorCode::WexelNotFound);
    }
    if w.is_redeemed {
        return Err(ErrorCode::WexelAlreadyRedeemed);
    }
    if value == 0 {
        return Err(ErrorCode::InvalidBoostAmount);
    }
    let target = match share_bp(w.principal, BOOST_TARGET_BP as u64) {
        Some(v) => v,
        None => return Err(ErrorCode::MathOverflow),
    };
    let current = match share_bp(w.principal, w.boost_apy_bp as u64) {
        Some(v) => v,
        None => return Err(ErrorCode::MathOverflow),
    };
    let new_value = match current.checked_add(value) {
        Some(v) => v,
        None => return Err(ErrorCode::MathOverflow),
    };
    if new_value > target {
        return Err(ErrorCode::BoostTargetExceeded);
    }
    let scaled = match new_value.checked_mul(BP_DENOMINATOR) {
        Some(v) => v,
        None => return Err(ErrorCode::MathOverflow),
    };
    proof {
        assert(w.principal > 0) by (nonlinear_arith)
            requires
                new_value >= 1,
                new_value <= w.principal * 3000int / 10000int,
        ;
    }
    let rate = scaled / w.principal;
    let rate: u16 = if rate < BOOST_MAX_BP as u64 {
        rate as u16
    } else {
        BOOST_MAX_BP
    };
    ctx.wexel.boost_apy_bp = rate;
    Ok(BoostApplied { wexel_id, boost_apy_bp: rate, value })
}

// ---------------------------------------------------------------- finalize

/// The accounts a finalization acts on.
#[derive(Clone, Copy, Debug)]
pub struct MintWexelFinalize {
    pub user: Pubkey,
    pub wexel: Wexel,
}

/// Record of a finalization.
#[derive(Clone, Copy, Debug, PartialEq, Eq, Structural)]
pub struct WexelFinalized {
    pub wexel_id: u64,
    pub finalized_at: i64,
}

/// Finalizing the position at time `now`.
pub open spec fn finalize_outcome(ctx: MintWexelFinalize, wexel_id: u64, now: i64) -> Result<
    (MintWexelFinalize, WexelFinalized),
    ErrorCode,
> {
    let w = ctx.wexel;
    if w.owner != ctx.user {
        Err(ErrorCode::Unauthorized)
    } else if w.id != wexel_id {
        Err(ErrorCode::WexelNotFound)
    } else if w.is_finalized {
        Err(ErrorCode::WexelAlreadyFinalized)
    } else if now < w.end_time {
        Err(ErrorCode::WexelNotMatured)
    } else {
        Ok(
            (
                MintWexelFinalize { wexel: Wexel { is_finalized: true, ..w }, ..ctx },
                WexelFinalized { wexel_id, finalized_at: now },
            ),
        )
    }
}

/// Marks a matured position finalized, once.
pub fn mint_wexel_finalize(ctx: &mut MintWexelFinalize, wexel_id: u64, now: i64) -> (r: Result<
    WexelFinalized,
    ErrorCode,
>)
    ensures
        settles(finalize_outcome(*old(ctx), wexel_id, now), *old(ctx), *final(ctx), r),
{
    if ctx.wexel.owner != ctx.user {
        return Err(ErrorCode::Unauthorized);
    }
    if ctx.wexel.id != wexel_id {
        return Err(ErrorCode::WexelNotFound);
    }
    if ctx.wexel.is_finalized {
        return Err(ErrorCode::WexelAlreadyFinalized);
    }
    if now < ctx.wexel.end_time {
        return Err(ErrorCode::WexelNotMatured);
    }
    ctx.wexel.is_finalized = true;
    Ok(WexelFinalized { wexel_id, finalized_at: now })
}

// ---------------------------------------------------------------- accrue

/// The accounts an accrual acts on.
#[derive(Clone, Copy, Debug)]
pub struct Accrue {
    pub user: Pubkey,
    pub wexel: Wexel,
    pub rewards_vault: RewardsVault,
}

/// Record of one accrual tick.
#[derive(Clone, Copy, Debug, PartialEq, Eq, Structural)]
pub struct Accrued {
    pub wexel_id: u64,
    pub reward: u64,
    pub accrued_at: i64,
}

/// One daily accrual tick on the position at time `now`, paid from the vault.
pub open spec fn accrue_outcome(ctx: Accrue, wexel_id: u64, now: i64) -> Result<
    (Accrue, Accrued),
    ErrorCode,
> {
    let w = ctx.wexel;
    let v = ctx.rewards_vault;
    let reward = wexel_daily_reward(w);
    if w.owner != ctx.user {
        Err(ErrorCode::Unauthorized)
    } else if w.id != wexel_id {
        Err(ErrorCode::WexelNotFound)
    } else if w.is_redeemed {
        Err(ErrorCode::WexelAlreadyRedeemed)
    } else if now >= w.end_time {
        Err(ErrorCode::WexelNotMatured)
    } else if !daily_reward_fits(w) {
        Err(ErrorCode::MathOverflow)
    } else if v.available_balance < reward {
        Err(ErrorCode::InsufficientDeposit)
    } else if !fits_u64(w.claimed_total + reward) || !fits_u64(v.total_distributed + reward) {
        Err(ErrorCode::MathOverflow)
    } else {
        Ok(
            (
                Accrue {
                    wexel: Wexel { claimed_total: (w.claimed_total + reward) as u64, ..w },
                    rewards_vault: RewardsVault {
                        available_balance: (v.available_balance - reward) as u64,
                        total_distributed: (v.total_distributed + reward) as u64,
                    },
                    ..ctx
                },
                Accrued { wexel_id, reward: reward as u64, accrued_at: now },
            ),
        )
    }
}

/// Credits one day's reward to the position before maturity, paid out of
/// the vault.
pub fn accrue(ctx: &mut Accrue, wexel_id: u64, now: i64) -> (r: Result<Accrued, ErrorCode>)
    ensures
        settles(accrue_outcome(*old(ctx), wexel_id, now), *old(ctx), *final(ctx), r),
{
    let w = ctx.wexel;
    if w.owner != ctx.user {
        return Err(ErrorCode::Unauthorized);
    }
    if w.id != wexel_id {
        return Err(ErrorCode::WexelNotFound);
    }
    if w.is_redeemed {
        return Err(ErrorCode::WexelAlreadyRedeemed);
    }
    if now >= w.end_time {
        return Err(ErrorCode::WexelNotMatured);
    }
    let reward = match daily_reward(w.principal, w.base_apy_bp, w.boost_apy_bp) {
        Some(v) => v,
        None => return Err(ErrorCode::MathOverflow),
    };
    if ctx.rewards_vault.available_balance < reward {
        return Err(ErrorCode::InsufficientDeposit);
    }
    let claimed_total = match w.claimed_total.checked_add(reward) {
        Some(v) => v,
        None => return Err(ErrorCode::MathOverflow),
    };
    let distributed = match ctx.rewards_vault.total_distributed.checked_add(reward) {
        Some(v) => v,
        None => return Err(ErrorCode::MathOverflow),
    };
    ctx.wexel.claimed_total = claimed_total;
    ctx.rewards_vault.available_balance = ctx.rewards_vault.available_balance - reward;
    ctx.rewards_vault.total_distributed = distributed;
    Ok(Accrued { wexel_id, reward, accrued_at: now })
}

// ---------------------------------------------------------------- claim

/// The accounts a claim acts on.
#[derive(Clone, Copy, Debug)]
pub struct Claim {
    pub user: Pubkey,
    pub wexel: Wexel,
    pub rewards_vault: RewardsVault,
}

/// Record of a claim.
#[derive(Clone, Copy, Debug, PartialEq, Eq, Structural)]
pub struct Claimed {
    pub wexel_id: u64,
    pub to: Pubkey,
    pub amount: u64,
}

/// Claiming at time `now` all that the position has earned and not yet
/// claimed, paid from the vault.
pub open spec fn claim_outcome(ctx: Claim, wexel_id: u64, now: i64) -> Result<
    (Claim, Claimed),
    ErrorCode,
> {
    let w = ctx.wexel;
    let v = ctx.rewards_vault;
    let total = total_accrued(w, now as int);
    let claimable = unclaimed(total, w.claimed_total as int);
    if w.owner != ctx.user {
        Err(ErrorCode::Unauthorized)
    } else if w.id != wexel_id {
        Err(ErrorCode::WexelNotFound)
    } else if w.is_redeemed {
        Err(ErrorCode::WexelAlreadyRedeemed)
    } else if !daily_reward_fits(w) || !fits_u64(total) {
        Err(ErrorCode::MathOverflow)
    } else if claimable == 0 || v.available_balance < claimable {
        Err(ErrorCode::InsufficientDeposit)
    } else if !fits_u64(v.total_distributed + claimable) {
        Err(ErrorCode::MathOverflow)
    } else {
        Ok(
            (
                Claim {
                    wexel: Wexel { claimed_total: (w.claimed_total + claimable) as u64, ..w },
                    rewards_vault: RewardsVault {
                        available_balance: (v.available_balance - claimable) as u64,
                        total_distributed: (v.total_distributed + claimable) as u64,
                    },
                    ..ctx
                },
                Claimed { wexel_id, to: ctx.user, amount: claimable as u64 },
            ),
        )
    }
}

/// Pays out what the position has earned by `now` beyond what it has
/// already been paid.
pub fn claim(ctx: &mut Claim, wexel_id: u64, now: i64) -> (r: Result<Claimed, ErrorCode>)
    ensures
        settles(claim_outcome(*old(ctx), wexel_id, now), *old(ctx), *final(ctx), r),
{
    let w = ctx.wexel;
    if w.owner != ctx.user {
        return Err(ErrorCode::Unauthorized);
    }
    if w.id != wexel_id {
        return Err(ErrorCode::WexelNotFound);
    }
    if w.is_redeemed {
        return Err(ErrorCode::WexelAlreadyRedeemed);
    }
    let total = match accrued_until(&w, now) {
        Some(v) => v,
        None => return Err(ErrorCode::MathOverflow),
    };
    let claimable: u64 = if total > w.claimed_total {
        total - w.claimed_total
    } else {
        0
    };
    if claimable == 0 || ctx.rewards_vault.available_balance < claimable {
        return Err(ErrorCode::InsufficientDeposit);
    }
    let distributed = match ctx.rewards_vault.total_distributed.checked_add(claimable) {
        Some(v) => v,
        None => return Err(ErrorCode::MathOverflow),
    };
    ctx.wexel.claimed_total = total;
    ctx.rewards_vault.available_balance = ctx.rewards_vault.available_balance - claimable;
    ctx.rewards_vault.total_distributed = distributed;
    Ok(Claimed { wexel_id, to: ctx.user, amount: claimable })
}

/// What the position has earned by `now`; `None` when a product overflows.
pub fn accrued_until(w: &Wexel, now: i64) -> (r: Option<u64>)
    ensures
        r == if daily_reward_fits(*w) && fits_u64(total_accrued(*w, now as int)) {
            Some(total_accrued(*w, now as int) as u64)
        } else {
            None::<u64>
        },
{
    let daily = match daily_reward(w.principal, w.base_apy_bp, w.boost_apy_bp) {
        Some(v) => v,
        None => return None,
    };
    let days = days_elapsed(w.start_time, now);
    daily.checked_mul(days)
}

// ---------------------------------------------------------------- collateralize

/// The accounts a collateralization acts on: the signer, the position, and
/// the record the loan is written to.
#[derive(Clone, Copy, Debug)]
pub struct Collateralize {
    pub user: Pubkey,
    pub wexel: Wexel,
    pub collateral_position: CollateralPosition,
}

/// Record of a loan taken against a position.
#[derive(Clone, Copy, Debug, PartialEq, Eq, Structural)]
pub struct Collateralized {
    pub wexel_id: u64,
    pub loan_amount: u64,
    pub ltv_bp: u16,
}

/// The loan a position of `principal` backs: the loan-to-value share of it.
pub open spec fn loan_for(principal: int) -> int {
    bp_share(principal, LTV_BP as int)
}

/// Pledging the position at time `now` for a loan.
pub open spec fn collateralize_outcome(ctx: Collateralize, wexel_id: u64, now: i64) -> Result<
    (Collateralize, Collateralized),
    ErrorCode,
> {
    let w = ctx.wexel;
    let loan = loan_for(w.principal as int);
    if w.owner != ctx.user {
        Err(ErrorCode::Unauthorized)
    } else if w.id != wexel_id {
        Err(ErrorCode::WexelNotFound)
    } else if w.is_redeemed {
        Err(ErrorCode::WexelAlreadyRedeemed)
    } else if w.is_collateralized {
        Err(ErrorCode::AlreadyCollateralized)
    } else if w.is_finalized {
        Err(ErrorCode::WexelAlreadyFinalized)
    } else if !fits_u64(w.principal * LTV_BP) {
        Err(ErrorCode::MathOverflow)
    } else if loan == 0 {
        Err(ErrorCode::InvalidLoanAmount)
    } else {
        Ok(
            (
                Collateralize {
                    wexel: Wexel { is_collateralized: true, ..w },
                    collateral_position: CollateralPosition {
                        wexel_id,
                        loan_amount: loan as u64,
                        start_time: now,
                        is_repaid: false,
                    },
                    ..ctx
                },
                Collateralized { wexel_id, loan_amount: loan as u64, ltv_bp: LTV_BP },
            ),
        )
    }
}

/// Opens a loan of the loan-to-value share of the principal against a
/// position that backs none and is not finalized.
pub fn collateralize(ctx: &mut Collateralize, wexel_id: u64, now: i64) -> (r: Result<
    Collateralized,
    ErrorCode,
>)
    ensures
        settles(collateralize_outcome(*old(ctx), wexel_id, now), *old(ctx), *final(ctx), r),
{
    let w = ctx.wexel;
    if w.owner != ctx.user {
        return Err(ErrorCode::Unauthorized);
    }
    if w.id != wexel_id {
        return Err(ErrorCode::WexelNotFound);
    }
    if w.is_redeemed {
        return Err(ErrorCode::WexelAlreadyRedeemed);
    }
    if w.is_collateralized {
        return Err(ErrorCode::AlreadyCollateralized);
    }
    if w.is_finalized {
        return Err(ErrorCode::WexelAlreadyFinalized);
    }
    let loan = match share_bp(w.principal, LTV_BP as u64) {
        Some(v) => v,
        None => return Err(ErrorCode::MathOverflow),
    };
    if loan == 0 {
        return Err(ErrorCode::InvalidLoanAmount);
    }
    ctx.collateral_position = CollateralPosition {
        wexel_id,
        loan_amount: loan,
        start_time: now,
        is_repaid: false,
    };
    ctx.wexel.is_collateralized = true;
    Ok(Collateralized { wexel_id, loan_amount: loan, ltv_bp: LTV_BP })
}

// ---------------------------------------------------------------- repay

/// The accounts a repayment acts on.
#[derive(Clone, Copy, Debug)]
pub struct RepayLoan {
    pub user: Pubkey,
    pub wexel: Wexel,
    pub collateral_position: CollateralPosition,
}

/// Record of a repaid loan.
#[derive(Clone, Copy, Debug, PartialEq, Eq, Structural)]
pub struct LoanRepaid {
    pub wexel_id: u64,
    pub repaid_amount: u64,
}

/// Repaying the position's loan with `amount`.
pub open spec fn repay_loan_outcome(ctx: RepayLoan, wexel_id: u64, amount: u64) -> Result<
    (RepayLoan, LoanRepaid),
    ErrorCode,
> {
    let w = ctx.wexel;
    let loan = ctx.collateral_position;
    if w.owner != ctx.user {
        Err(ErrorCode::Unauthorized)
    } else if w.id != wexel_id || loan.wexel_id != wexel_id {
        Err(ErrorCode::WexelNotFound)
    } else if !w.is_collateralized {
        Err(ErrorCode::NotCollateralized)
    } else if loan.is_repaid {
        Err(ErrorCode::AlreadyRepaid)
    } else if amount < loan.loan_amount {
        Err(ErrorCode::InvalidRepaymentAmount)
    } else {
        Ok(
            (
                RepayLoan {
                    wexel: Wexel { is_collateralized: false, ..w },
                    collateral_position: CollateralPosition { is_repaid: true, ..loan },
                    ..ctx
                },
                LoanRepaid { wexel_id, repaid_amount: amount },
            ),
        )
    }
}

/// Closes the position's open loan with a payment of at least the loan
/// amount; partial repayment is refused.
pub fn repay_loan(ctx: &mut RepayLoan, wexel_id: u64, amount: u64) -> (r: Result<
    LoanRepaid,
    ErrorCode,
>)
    ensures
        settles(repay_loan_outcome(*old(ctx), wexel_id, amount), *old(ctx), *final(ctx), r),
{
    if ctx.wexel.owner != ctx.user {
        return Err(ErrorCode::Unauthorized);
    }
    if ctx.wexel.id != wexel_id || ctx.collateral_position.wexel_id != wexel_id {
        return Err(ErrorCode::WexelNotFound);
    }
    if !ctx.wexel.is_collateralized {
        return Err(ErrorCode::NotCollateralized);
    }
    if ctx.collateral_position.is_repaid {
        return Err(ErrorCode::AlreadyRepaid);
    }
    if amount < ctx.collateral_position.loan_amount {
        return Err(ErrorCode::InvalidRepaymentAmount);
    }
    ctx.collateral_position.is_repaid = true;
    ctx.wexel.is_collateralized = false;
    Ok(LoanRepaid { wexel_id, repaid_amount: amount })
}

// ---------------------------------------------------------------- redeem

/// The accounts a redemption acts on.
#[derive(Clone, Copy, Debug)]
pub struct Redeem {
    pub user: Pubkey,
    pub wexel: Wexel,
}

/// Record of a redemption: the amounts the treasury owes the owner.
#[derive(Clone, Copy, Debug, PartialEq, Eq, Structural)]
pub struct Redeemed {
    pub wexel_id: u64,
    pub principal: u64,
    pub reward: u64,
    pub redeemed_at: i64,
}

/// Redeeming the position at time `now`: its principal, and what it earned
/// up to maturity and has not been paid.
pub open spec fn redeem_outcome(ctx: Redeem, wexel_id: u64, now: i64) -> Result<
    (Redeem, Redeemed),
    ErrorCode,
> {
    let w = ctx.wexel;
    let total = total_accrued(w, w.end_time as int);
    if w.owner != ctx.user {
        Err(ErrorCode::Unauthorized)
    } else if w.id != wexel_id {
        Err(ErrorCode::WexelNotFound)
    } else if w.is_redeemed {
        Err(ErrorCode::WexelAlreadyRedeemed)
    } else if now < w.end_time {
        Err(ErrorCode::WexelNotMatured)
    } else if !daily_reward_fits(w) || !fits_u64(total) {
        Err(ErrorCode::MathOverflow)
    } else {
        Ok(
            (
                Redeem { wexel: Wexel { is_redeemed: true, ..w }, ..ctx },
                Redeemed {
                    wexel_id,
                    principal: w.principal,
                    reward: unclaimed(total, w.claimed_total as int) as u64,
                    redeemed_at: now,
                },
            ),
        )
    }
}

/// Closes a matured position for good and states what it pays out.
pub fn redeem(ctx: &mut Redeem, wexel_id: u64, now: i64) -> (r: Result<Redeemed, ErrorCode>)
    ensures
        settles(redeem_outcome(*old(ctx), wexel_id, now), *old(ctx), *final(ctx), r),
{
    let w = ctx.wexel;
    if w.owner != ctx.user {
        return Err(ErrorCode::Unauthorized);
    }
    if w.id != wexel_id {
        return Err(ErrorCode::WexelNotFound);
    }
    if w.is_redeemed {
        return Err(ErrorCode::WexelAlreadyRedeemed);
    }
    if now < w.end_time {
        return Err(ErrorCode::WexelNotMatured);
    }
    let total = match accrued_until(&w, w.end_time) {
        Some(v) => v,
        None => return Err(ErrorCode::MathOverflow),
    };
    let reward: u64 = if total > w.claimed_total {
        total - w.claimed_total
    } else {
        0
    };
    ctx.wexel.is_redeemed = true;
    Ok(Redeemed { wexel_id, principal: w.principal, reward, redeemed_at: now })
}

} // verus!

//! Rate bounds, fixed ratios and the arithmetic of rewards and loans.
use vstd::prelude::*;

verus! {

/// Loan-to-value ratio of a collateralized position, in basis points.
pub const LTV_BP: u16 = 6000;
/// Lowest base APY a pool may carry, in basis points.
pub const MIN_APY_BP: u16 = 1800;
/// Highest base APY a pool may carry, in basis points.
pub const MAX_APY_BP: u16 = 3600;
/// Largest boost APY a position may reach, in basis points.
pub const BOOST_MAX_BP: u16 = 500;
/// Share of the principal that must be staked for the full boost, in basis points.
pub const BOOST_TARGET_BP: u16 = 3000;
/// Shortest lock period of a pool, in months.
pub const MIN_LOCK_MONTHS: u8 = 12;
/// Longest lock period of a pool, in months.
pub const MAX_LOCK_MONTHS: u8 = 36;
/// Basis points in one whole.
pub const BP_DENOMINATOR: u64 = 10000;
/// Divisor of the daily reward: days in a year times basis points in one whole.
pub const DAILY_DENOMINATOR: u64 = 3650000;
/// Seconds in one day of accrual.
pub const SECONDS_PER_DAY: u64 = 86400;
/// A lock month is thirty days.
pub const SECONDS_PER_MONTH: u64 = 2592000;

/// An account address of the host ledger: its 32 bytes, read big-endian as
/// two 128-bit halves.
#[derive(Clone, Copy, Debug, PartialEq, Eq, Structural)]
pub struct Pubkey {
    pub high: u128,
    pub low: u128,
}

/// Whether `x` is representable as a `u64`.
pub open spec fn fits_u64(x: int) -> bool {
    0 <= x <= u64::MAX
}

/// The reward of one day on `principal` at `apy_bp` basis points a year,
/// truncated toward zero.
pub open spec fn daily_reward_of(principal: int, apy_bp: int) -> int {
    principal * apy_bp / (DAILY_DENOMINATOR as int)
}

/// Whole days from `start` to `now`; none when `now` is not after `start`.
pub open spec fn days_between(start: int, now: int) -> int {
    if now <= start {
        0
    } else {
        (now - start) / (SECONDS_PER_DAY as int)
    }
}

/// `amount * ratio_bp / 10000`, truncated toward zero.
pub open spec fn bp_share(amount: int, ratio_bp: int) -> int {
    amount * ratio_bp / (BP_DENOMINATOR as int)
}

/// The reward of one day on `principal` at the sum of `base_bp` and `boost_bp`;
/// `None` when the product of principal and rate does not fit in a `u64`.
pub fn daily_reward(principal: u64, base_bp: u16, boost_bp: u16) -> (r: Option<u64>)
    ensures
        r == if fits_u64(principal * (base_bp + boost_bp)) {
            Some(daily_reward_of(principal as int, base_bp + boost_bp) as u64)
        } else {
            None::<u64>
        },
{
    let rate: u64 = base_bp as u64 + boost_bp as u64;
    match principal.checked_mul(rate) {
        Some(p) => Some(p / DAILY_DENOMINATOR),
        None => None,
    }
}

/// Whole days elapsed from `start` to `now`.
pub fn days_elapsed(start: i64, now: i64) -> (r: u64)
    ensures
        r as int == days_between(start as int, now as int),
{
    if now <= start {
        0
    } else {
        let diff: i128 = now as i128 - start as i128;
        let secs: u64 = diff as u64;
        secs / SECONDS_PER_DAY
    }
}

/// `amount * ratio_bp / 10000`; `None` when the product does not fit in a `u64`.
pub fn share_bp(amount: u64, ratio_bp: u64) -> (r: Option<u64>)
    ensures
        r == if fits_u64(amount * ratio_bp) {
            Some(bp_share(amount as int, ratio_bp as int) as u64)
        } else {
            None::<u64>
        },
{
    match amount.checked_mul(ratio_bp) {
        Some(p) => Some(p / BP_DENOMINATOR),
        None => None,
    }
}

} // verus!

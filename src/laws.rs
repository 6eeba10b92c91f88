//! Properties that relate several operations, or several calls of one,
//! proved over the spec functions that state the operations.
use vstd::prelude::*;
use crate::ledger::{
    apply_boost_outcome, boost_target, boost_value, claim_outcome, daily_reward_fits,
    redeem_outcome, repay_loan_outcome, total_accrued, wexel_daily_reward, ApplyBoost, Claim,
    ErrorCode, Redeem, RepayLoan, Wexel,
};
use crate::rates::{days_between, fits_u64, BOOST_MAX_BP};

verus! {

/// The two positions differ at most in what has been claimed on them.
pub open spec fn same_terms(a: Wexel, b: Wexel) -> bool {
    Wexel { claimed_total: 0, ..a } == Wexel { claimed_total: 0, ..b }
}

/// Claims on one position at each of `times` in turn; a refused claim
/// changes nothing. Returns the accounts after the last claim and the sum
/// paid out.
pub open spec fn claim_run(ctx: Claim, wexel_id: u64, times: Seq<i64>) -> (Claim, int)
    decreases times.len(),
{
    if times.len() == 0 {
        (ctx, 0)
    } else {
        let (c, paid) = claim_run(ctx, wexel_id, times.drop_last());
        match claim_outcome(c, wexel_id, times.last()) {
            Ok((next, event)) => (next, paid + event.amount),
            Err(_) => (c, paid),
        }
    }
}

/// Boosts of one position by each of `values` in turn; a refused boost
/// changes nothing.
pub open spec fn boost_run(ctx: ApplyBoost, wexel_id: u64, values: Seq<u64>) -> ApplyBoost
    decreases values.len(),
{
    if values.len() == 0 {
        ctx
    } else {
        let c = boost_run(ctx, wexel_id, values.drop_last());
        match apply_boost_outcome(c, wexel_id, values.last()) {
            Ok((next, _)) => next,
            Err(_) => c,
        }
    }
}

/// What a position has earned never shrinks as time goes on.
pub proof fn lemma_accrued_monotone(w: Wexel, t1: int, t2: int)
    requires
        t1 <= t2,
    ensures
        total_accrued(w, t1) <= total_accrued(w, t2),
{
    let d = wexel_daily_reward(w);
    let a = days_between(w.start_time as int, t1);
    let b = days_between(w.start_time as int, t2);
    assert(d >= 0) by (nonlinear_arith)
        requires
            d == (w.principal as int) * (w.base_apy_bp + w.boost_apy_bp) / 3650000int,
    ;
    if t1 > w.start_time {
        assert((t1 - w.start_time) / 86400int <= (t2 - w.start_time) / 86400int) by (
        nonlinear_arith)
            requires
                t1 - w.start_time <= t2 - w.start_time,
        ;
    }
    assert(0 <= a <= b);
    assert(d * a <= d * b) by (nonlinear_arith)
        requires
            d >= 0,
            a <= b,
    ;
}

/// A claim that succeeds leaves the position paid up to exactly what it has
/// earned by then, and a second claim at the same moment pays nothing: it is
/// refused as having nothing to claim, and changes nothing.
pub proof fn lemma_claim_twice_pays_nothing(ctx: Claim, wexel_id: u64, now: i64)
    requires
        claim_outcome(ctx, wexel_id, now) is Ok,
    ensures
        ({
            let (next, event) = claim_outcome(ctx, wexel_id, now).unwrap();
            &&& next.wexel.claimed_total == total_accrued(ctx.wexel, now as int)
            &&& next.wexel.claimed_total == ctx.wexel.claimed_total + event.amount
            &&& event.amount > 0
            &&& claim_outcome(next, wexel_id, now) == Err::<
                (Claim, crate::ledger::Claimed),
                ErrorCode,
            >(ErrorCode::InsufficientDeposit)
        }),
{
}

/// Over any run of claims at moments no later than `until`, the sum paid out
/// is exactly what the claimed total grew by, and the claimed total never
/// passes what the position has earned by `until` (unless it had already
/// done so before the run). Nothing is paid twice.
pub proof fn lemma_claims_never_pay_twice(ctx: Claim, wexel_id: u64, times: Seq<i64>, until: i64)
    requires
        forall|i: int| 0 <= i < times.len() ==> times[i] <= until,
    ensures
        ({
            let (c, paid) = claim_run(ctx, wexel_id, times);
            &&& same_terms(c.wexel, ctx.wexel)
            &&& c.wexel.claimed_total == ctx.wexel.claimed_total + paid
            &&& ctx.wexel.claimed_total <= total_accrued(ctx.wexel, until as int)
                ==> c.wexel.claimed_total <= total_accrued(ctx.wexel, until as int)
        }),
    decreases times.len(),
{
    if times.len() > 0 {
        let prefix = times.drop_last();
        assert forall|i: int| 0 <= i < prefix.len() implies prefix[i] <= until by {
            assert(prefix[i] == times[i]);
        }
        lemma_claims_never_pay_twice(ctx, wexel_id, prefix, until);
        let (c, paid) = claim_run(ctx, wexel_id, prefix);
        let t = times.last();
        assert(t == times[times.len() - 1]);
        if let Ok((next, event)) = claim_outcome(c, wexel_id, t) {
            assert(total_accrued(c.wexel, t as int) == total_accrued(ctx.wexel, t as int));
            lemma_accrued_monotone(ctx.wexel, t as int, until as int);
        }
    }
}

/// One boost never lowers the boost rate, never lifts it past the largest
/// boost, and leaves the stake it stands for within the boost target.
pub proof fn lemma_boost_step(ctx: ApplyBoost, wexel_id: u64, value: u64)
    requires
        ctx.wexel.boost_apy_bp <= BOOST_MAX_BP,
        apply_boost_outcome(ctx, wexel_id, value) is Ok,
    ensures
        ({
            let next = apply_boost_outcome(ctx, wexel_id, value).unwrap().0;
            &&& ctx.wexel.boost_apy_bp <= next.wexel.boost_apy_bp <= BOOST_MAX_BP
            &&& boost_value(next.wexel) <= boost_target(next.wexel)
            &&& next.wexel.principal == ctx.wexel.principal
        }),
{
    let w = ctx.wexel;
    let p = w.principal as int;
    let b = w.boost_apy_bp as int;
    let current = boost_value(w);
    let new_value = current + value;
    let target = boost_target(w);
    let rate = new_value * 10000 / p;
    assert(p > 0) by (nonlinear_arith)
        requires
            new_value >= 1,
            new_value <= target,
            target == p * 3000 / 10000int,
    ;
    assert(current == p * b / 10000int);
    assert(rate >= b) by (nonlinear_arith)
        requires
            p > 0,
            b >= 0,
            current == p * b / 10000int,
            new_value >= current + 1,
            rate == new_value * 10000 / p,
    ;
    let next = apply_boost_outcome(ctx, wexel_id, value).unwrap().0;
    let r = next.wexel.boost_apy_bp as int;
    assert(r <= rate && r >= 0);
    assert(p * r / 10000int <= new_value) by (nonlinear_arith)
        requires
            p > 0,
            0 <= r <= rate,
            rate == new_value * 10000 / p,
            new_value >= 0,
    ;
}

/// Over any run of boosts the boost rate never falls, never passes the
/// largest boost, and the stake it stands for stays within the boost target.
pub proof fn lemma_boosts_monotone_and_capped(ctx: ApplyBoost, wexel_id: u64, values: Seq<u64>)
    requires
        ctx.wexel.boost_apy_bp <= BOOST_MAX_BP,
        boost_value(ctx.wexel) <= boost_target(ctx.wexel),
    ensures
        ({
            let c = boost_run(ctx, wexel_id, values);
            &&& ctx.wexel.boost_apy_bp <= c.wexel.boost_apy_bp <= BOOST_MAX_BP
            &&& boost_value(c.wexel) <= boost_target(c.wexel)
            &&& c.wexel.principal == ctx.wexel.principal
        }),
    decreases values.len(),
{
    if values.len() > 0 {
        lemma_boosts_monotone_and_capped(ctx, wexel_id, values.drop_last());
        let c = boost_run(ctx, wexel_id, values.drop_last());
        if apply_boost_outcome(c, wexel_id, values.last()) is Ok {
            lemma_boost_step(c, wexel_id, values.last());
        }
    }
}

/// A position that may be redeemed is refused as not matured one second
/// before its end time, and redeemed at its end time exactly.
pub proof fn lemma_redeem_at_maturity(ctx: Redeem, wexel_id: u64)
    requires
        ctx.wexel.owner == ctx.user,
        ctx.wexel.id == wexel_id,
        !ctx.wexel.is_redeemed,
        daily_reward_fits(ctx.wexel),
        fits_u64(total_accrued(ctx.wexel, ctx.wexel.end_time as int)),
    ensures
        redeem_outcome(ctx, wexel_id, ctx.wexel.end_time) is Ok,
        ctx.wexel.end_time > i64::MIN ==> redeem_outcome(ctx, wexel_id, (ctx.wexel.end_time - 1) as i64)
            == Err::<(Redeem, crate::ledger::Redeemed), ErrorCode>(ErrorCode::WexelNotMatured),
{
}

/// An open loan is refused a repayment one unit below its amount, and closed
/// by a repayment of its amount exactly, which frees the position.
pub proof fn lemma_repayment_floor(ctx: RepayLoan, wexel_id: u64)
    requires
        ctx.wexel.owner == ctx.user,
        ctx.wexel.id == wexel_id,
        ctx.collateral_position.wexel_id == wexel_id,
        ctx.wexel.is_collateralized,
        !ctx.collateral_position.is_repaid,
        ctx.collateral_position.loan_amount > 0,
    ensures
        repay_loan_outcome(ctx, wexel_id, (ctx.collateral_position.loan_amount - 1) as u64)
            == Err::<(RepayLoan, crate::ledger::LoanRepaid), ErrorCode>(
            ErrorCode::InvalidRepaymentAmount,
        ),
        ({
            let r = repay_loan_outcome(ctx, wexel_id, ctx.collateral_position.loan_amount);
            &&& r is Ok
            &&& !r.unwrap().0.wexel.is_collateralized
            &&& r.unwrap().0.collateral_position.is_repaid
        }),
{
}

} // verus!

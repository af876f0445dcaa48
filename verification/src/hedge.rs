//! Hedge arithmetic: price drift against an anchor, the delta-neutral target
//! notional, fill slippage, and the reason code of a request.

use vstd::prelude::*;
use crate::errors::ErrorCode;
use crate::fixed_point::{abs_diff, abs_int, min_int, trunc_div};

verus! {

/// Relative distance of `current` from `anchor`, in basis points and capped at
/// 100%. A missing current price drifts by nothing; a missing anchor counts
/// as the largest drift.
pub open spec fn drift_bps(current: int, anchor: int) -> int {
    if current <= 0 {
        0
    } else if anchor <= 0 {
        10000
    } else {
        min_int(abs_diff(current, anchor) * 10000 / anchor, 10000)
    }
}

/// Value of the stake at a fixed-point price, in whole units of the quote currency.
pub open spec fn staked_value(staked_sol: int, price_fp: int) -> int {
    staked_sol * price_fp / 1000000
}

/// The part of the staked value that the hedge is to offset.
pub open spec fn delta_exposure(staked_sol: int, price_fp: int, target_delta_bps: int) -> int {
    staked_value(staked_sol, price_fp) * target_delta_bps / 10000
}

/// The delta exposure weighted by the fixed-point sensitivity `beta_fp`.
pub open spec fn beta_exposure(
    staked_sol: int,
    price_fp: int,
    target_delta_bps: int,
    beta_fp: int,
) -> int {
    trunc_div(delta_exposure(staked_sol, price_fp, target_delta_bps) * beta_fp, 1000000)
}

/// The delta-neutral hedge notional: the weighted exposure as a short
/// position; nothing without a stake or a price.
pub open spec fn target_hedge_notional(
    staked_sol: int,
    price_fp: int,
    target_delta_bps: int,
    beta_fp: int,
) -> int {
    if staked_sol == 0 || price_fp <= 0 {
        0
    } else {
        -abs_int(beta_exposure(staked_sol, price_fp, target_delta_bps, beta_fp))
    }
}

/// Whether the target fits: the weighting by `beta_fp` stays within 128
/// signed bits, and the size of the hedge within 63.
pub open spec fn target_hedge_fits(
    staked_sol: int,
    price_fp: int,
    target_delta_bps: int,
    beta_fp: int,
) -> bool {
    staked_sol == 0 || price_fp <= 0 || (i128::MIN <= delta_exposure(
        staked_sol,
        price_fp,
        target_delta_bps,
    ) * beta_fp <= i128::MAX && abs_int(
        beta_exposure(staked_sol, price_fp, target_delta_bps, beta_fp),
    ) <= i64::MAX)
}

/// With a sensitivity above zero, the target is the staked value times the
/// target delta times the sensitivity, as a short position.
pub proof fn lemma_target_is_minus_exposure(
    staked_sol: int,
    price_fp: int,
    target_delta_bps: int,
    beta_fp: int,
)
    requires
        0 <= staked_sol,
        0 < price_fp,
        0 <= target_delta_bps,
        0 < beta_fp,
    ensures
        target_hedge_notional(staked_sol, price_fp, target_delta_bps, beta_fp) == -(staked_sol
            * price_fp / 1000000 * target_delta_bps / 10000 * beta_fp / 1000000),
        target_hedge_notional(staked_sol, price_fp, target_delta_bps, beta_fp) <= 0,
{
    let value = staked_sol * price_fp / 1000000;
    assert(0 <= staked_sol * price_fp) by (nonlinear_arith)
        requires
            0 <= staked_sol,
            0 < price_fp,
    ;
    assert(0 <= value * target_delta_bps) by (nonlinear_arith)
        requires
            0 <= value,
            0 <= target_delta_bps,
    ;
    let with_delta = value * target_delta_bps / 10000;
    assert(0 <= with_delta * beta_fp) by (nonlinear_arith)
        requires
            0 <= with_delta,
            0 < beta_fp,
    ;
    if staked_sol == 0 {
        assert(staked_sol * price_fp == 0) by (nonlinear_arith)
            requires
                staked_sol == 0,
        ;
        assert(value * target_delta_bps == 0) by (nonlinear_arith)
            requires
                value == 0,
        ;
        assert(with_delta * beta_fp == 0) by (nonlinear_arith)
            requires
                with_delta == 0,
        ;
    }
}

/// Relative distance of a fill from its reference price, in basis points and
/// capped at 100%.
pub open spec fn slippage_bps(fill: int, reference: int) -> int {
    min_int(abs_diff(fill, reference) * 10000 / reference, 10000)
}

/// Which of the two request conditions held: 1 for the interval alone, 2 for
/// the drift alone, 3 for both, 0 for neither.
pub open spec fn reason_code(interval_ok: bool, drift_ok: bool) -> u8 {
    if interval_ok && drift_ok {
        3
    } else if interval_ok {
        1
    } else if drift_ok {
        2
    } else {
        0
    }
}

/// Which of the two request conditions held.
pub fn compute_reason_code(interval_ok: bool, drift_ok: bool) -> (code: u8)
    ensures
        code == reason_code(interval_ok, drift_ok),
{
    match (interval_ok, drift_ok) {
        (true, true) => 3,
        (true, false) => 1,
        (false, true) => 2,
        _ => 0,
    }
}

/// Drift of the current price from the anchor, in basis points.
pub fn compute_price_drift_bps(current_price_fp: i64, anchor_price_fp: i64) -> (r: Result<
    u16,
    ErrorCode,
>)
    ensures
        r == Ok::<u16, ErrorCode>(drift_bps(current_price_fp as int, anchor_price_fp as int) as u16),
        0 <= drift_bps(current_price_fp as int, anchor_price_fp as int) <= 10000,
{
    if current_price_fp <= 0 {
        return Ok(0);
    }
    if anchor_price_fp <= 0 {
        return Ok(10_000);
    }
    let p = current_price_fp as i128;
    let p0 = anchor_price_fp as i128;
    let diff: i128 = if p >= p0 {
        p - p0
    } else {
        p0 - p
    };
    let bps: i128 = diff * 10_000 / p0;
    assert(0 <= bps) by (nonlinear_arith)
        requires
            bps == diff * 10_000 / (p0 as int),
            0 <= diff,
            0 < p0,
    ;
    if bps > 10_000 {
        Ok(10_000)
    } else {
        Ok(bps as u16)
    }
}

/// The delta-neutral target of the hedge for the given stake and price.
pub fn compute_target_hedge_notional_usd_delta(
    staked_sol: u64,
    price_fp: i64,
    target_delta_bps: u16,
    beta_fp: i64,
) -> (r: Result<i64, ErrorCode>)
    ensures
        target_hedge_fits(
            staked_sol as int,
            price_fp as int,
            target_delta_bps as int,
            beta_fp as int,
        ) ==> r == Ok::<i64, ErrorCode>(
            target_hedge_notional(
                staked_sol as int,
                price_fp as int,
                target_delta_bps as int,
                beta_fp as int,
            ) as i64,
        ),
        !target_hedge_fits(
            staked_sol as int,
            price_fp as int,
            target_delta_bps as int,
            beta_fp as int,
        ) ==> r == Err::<i64, ErrorCode>(ErrorCode::MathOverflow),
        target_hedge_fits(
            staked_sol as int,
            price_fp as int,
            target_delta_bps as int,
            beta_fp as int,
        ) ==> -i64::MAX <= target_hedge_notional(
            staked_sol as int,
            price_fp as int,
            target_delta_bps as int,
            beta_fp as int,
        ) <= 0,
{
    if staked_sol == 0 || price_fp <= 0 {
        return Ok(0);
    }
    assert(0 <= (staked_sol as i128) * (price_fp as i128) <= 0xffff_ffff_ffff_ffff
        * 0x7fff_ffff_ffff_ffff) by (nonlinear_arith)
        requires
            0 <= staked_sol <= 0xffff_ffff_ffff_ffff,
            0 < price_fp <= 0x7fff_ffff_ffff_ffff,
    ;
    let value: i128 = (staked_sol as i128) * (price_fp as i128) / 1_000_000;
    assert(0 <= value * (target_delta_bps as i128) <= 0x1000_0000_0000_0000_0000_0000_0000
        * 0xffff) by (nonlinear_arith)
        requires
            0 <= value <= 0x1000_0000_0000_0000_0000_0000_0000,
            0 <= target_delta_bps <= 0xffff,
    ;
    let with_delta: i128 = value * (target_delta_bps as i128) / 10_000;
    let weighted = match with_delta.checked_mul(beta_fp as i128) {
        Some(w) => w,
        None => {
            return Err(ErrorCode::MathOverflow);
        },
    };
    let with_beta: i128 = weighted / 1_000_000;
    let magnitude: i128 = if with_beta < 0 {
        -with_beta
    } else {
        with_beta
    };
    if magnitude > 0x7fff_ffff_ffff_ffff {
        return Err(ErrorCode::MathOverflow);
    }
    let n: i64 = magnitude as i64;
    Ok(-n)
}

/// Slippage of a fill against its reference price, in basis points.
pub fn compute_slippage_bps(fill_price_fp: i64, ref_price_fp: i64) -> (r: Result<u16, ErrorCode>)
    ensures
        ref_price_fp > 0 ==> r == Ok::<u16, ErrorCode>(
            slippage_bps(fill_price_fp as int, ref_price_fp as int) as u16,
        ),
        ref_price_fp > 0 ==> 0 <= slippage_bps(fill_price_fp as int, ref_price_fp as int) <= 10000,
        ref_price_fp <= 0 ==> r == Err::<u16, ErrorCode>(ErrorCode::InvalidParams),
{
    if ref_price_fp <= 0 {
        return Err(ErrorCode::InvalidParams);
    }
    let f = fill_price_fp as i128;
    let r = ref_price_fp as i128;
    let diff: i128 = if f >= r {
        f - r
    } else {
        r - f
    };
    let bps: i128 = diff * 10_000 / r;
    assert(0 <= bps) by (nonlinear_arith)
        requires
            bps == diff * 10_000 / (r as int),
            0 <= diff,
            0 < r,
    ;
    if bps > 10_000 {
        Ok(10_000)
    } else {
        Ok(bps as u16)
    }
}

} // verus!

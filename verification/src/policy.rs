//! From a volatility score to a hedge policy: blending, linear mapping onto
//! the configured bounds, the carry bias and the slew limit.

use vstd::prelude::*;
use crate::errors::ErrorCode;
use crate::fixed_point::{abs_diff, max_int, min_int, trunc_div};

verus! {

/// Blend of realized and implied volatility, weighted in basis points and
/// capped at 100%.
pub open spec fn blended_score(realized: int, implied: int, w_realized: int, w_implied: int) -> int {
    min_int((w_realized * realized + w_implied * implied) / 10000, 10000)
}

/// Linear interpolation of `score_bps` over `[min_v, max_v]`.
pub open spec fn interpolate(score_bps: int, min_v: int, max_v: int) -> int {
    min_v + score_bps * (max_v - min_v) / 10000
}

/// Largest step the policy may take from `current` in one update: the slew
/// share of the current value, and at least one unit.
pub open spec fn slew_budget(current: int, max_slew_bps: int) -> int {
    max_int(current * max_slew_bps / 10000, 1)
}

/// Where the policy lands when it moves from `current` toward `target`: at the
/// target if that is within the slew budget, or if there is no current value
/// yet; else one budget closer to it.
pub open spec fn slew_limited(current: int, target: int, max_slew_bps: int) -> int {
    if current == 0 {
        target
    } else if abs_diff(target, current) <= slew_budget(current, max_slew_bps) {
        target
    } else if target > current {
        current + slew_budget(current, max_slew_bps)
    } else {
        current - slew_budget(current, max_slew_bps)
    }
}

/// Relative adjustment of the policy targets for a given expected carry:
/// +2% from +50 bps/day on, -2% from -50 bps/day down, nothing in between.
pub open spec fn carry_bias(expected_carry_bps: int) -> int {
    if expected_carry_bps >= 50 {
        200
    } else if expected_carry_bps <= -50 {
        -200
    } else {
        0
    }
}

/// `x` limited to `[lo, hi]`.
pub open spec fn limit_to(x: int, lo: int, hi: int) -> int {
    if x < lo {
        lo
    } else if x > hi {
        hi
    } else {
        x
    }
}

/// `v` moved by `bias_bps` basis points of itself, the share rounded toward zero.
pub open spec fn biased(v: int, bias_bps: int) -> int {
    v + trunc_div(v * bias_bps, 10000)
}

/// Blends realized and implied volatility into one score.
pub fn weighted_vol_score_bps(
    realized_bps: u16,
    implied_bps: u16,
    w_realized_bps: u16,
    w_implied_bps: u16,
) -> (r: Result<u16, ErrorCode>)
    ensures
        r == Ok::<u16, ErrorCode>(
            blended_score(
                realized_bps as int,
                implied_bps as int,
                w_realized_bps as int,
                w_implied_bps as int,
            ) as u16,
        ),
        0 <= blended_score(
            realized_bps as int,
            implied_bps as int,
            w_realized_bps as int,
            w_implied_bps as int,
        ) <= 10000,
{
    let wr = w_realized_bps as u64;
    let wi = w_implied_bps as u64;
    assert(wr * (realized_bps as u64) <= 0xffff * 0xffff) by (nonlinear_arith)
        requires
            wr <= 0xffff,
            realized_bps <= 0xffff,
    ;
    assert(wi * (implied_bps as u64) <= 0xffff * 0xffff) by (nonlinear_arith)
        requires
            wi <= 0xffff,
            implied_bps <= 0xffff,
    ;
    assert(0 <= wr * (realized_bps as u64)) by (nonlinear_arith);
    assert(0 <= wi * (implied_bps as u64)) by (nonlinear_arith);
    let sum: u64 = wr * (realized_bps as u64) + wi * (implied_bps as u64);
    let q: u64 = sum / 10_000;
    if q > 10_000 {
        Ok(10_000)
    } else {
        Ok(q as u16)
    }
}

/// Maps a score onto `[min_v, max_v]` by linear interpolation.
pub fn map_u16_by_bps(score_bps: u16, min_v: u16, max_v: u16) -> (r: Result<u16, ErrorCode>)
    ensures
        min_v > max_v ==> r == Err::<u16, ErrorCode>(ErrorCode::InvalidParams),
        min_v <= max_v && interpolate(score_bps as int, min_v as int, max_v as int) > u16::MAX ==> r
            == Err::<u16, ErrorCode>(ErrorCode::MathOverflow),
        min_v <= max_v && interpolate(score_bps as int, min_v as int, max_v as int) <= u16::MAX
            ==> r == Ok::<u16, ErrorCode>(
            interpolate(score_bps as int, min_v as int, max_v as int) as u16,
        ),
        min_v <= max_v && score_bps <= 10000 ==> min_v <= interpolate(
            score_bps as int,
            min_v as int,
            max_v as int,
        ) <= max_v,
{
    if min_v == max_v {
        assert(score_bps * (max_v - min_v) == 0) by (nonlinear_arith)
            requires
                max_v - min_v == 0,
        ;
        return Ok(min_v);
    }
    if min_v > max_v {
        return Err(ErrorCode::InvalidParams);
    }
    let span: u32 = (max_v - min_v) as u32;
    assert(0 <= (score_bps as u32) * span <= 0xffff * 0xffff) by (nonlinear_arith)
        requires
            score_bps <= 0xffff,
            span <= 0xffff,
    ;
    proof {
        lemma_interpolate_bounds(score_bps as int, min_v as int, max_v as int);
    }
    let add: u32 = (score_bps as u32) * span / 10_000;
    let out: u32 = (min_v as u32) + add;
    if out > 0xffff {
        return Err(ErrorCode::MathOverflow);
    }
    Ok(out as u16)
}

/// Maps a score onto `[min_v, max_v]` by linear interpolation.
pub fn map_u64_by_bps(score_bps: u16, min_v: u64, max_v: u64) -> (r: Result<u64, ErrorCode>)
    ensures
        min_v > max_v ==> r == Err::<u64, ErrorCode>(ErrorCode::InvalidParams),
        min_v <= max_v && interpolate(score_bps as int, min_v as int, max_v as int) > u64::MAX ==> r
            == Err::<u64, ErrorCode>(ErrorCode::MathOverflow),
        min_v <= max_v && interpolate(score_bps as int, min_v as int, max_v as int) <= u64::MAX
            ==> r == Ok::<u64, ErrorCode>(
            interpolate(score_bps as int, min_v as int, max_v as int) as u64,
        ),
        min_v <= max_v && score_bps <= 10000 ==> min_v <= interpolate(
            score_bps as int,
            min_v as int,
            max_v as int,
        ) <= max_v,
{
    if min_v == max_v {
        assert(score_bps * (max_v - min_v) == 0) by (nonlinear_arith)
            requires
                max_v - min_v == 0,
        ;
        return Ok(min_v);
    }
    if min_v > max_v {
        return Err(ErrorCode::InvalidParams);
    }
    let span: u128 = (max_v - min_v) as u128;
    assert(0 <= (score_bps as u128) * span <= 0xffff * 0xffff_ffff_ffff_ffff) by (nonlinear_arith)
        requires
            score_bps <= 0xffff,
            span <= 0xffff_ffff_ffff_ffff,
    ;
    proof {
        lemma_interpolate_bounds(score_bps as int, min_v as int, max_v as int);
    }
    let add: u128 = (score_bps as u128) * span / 10_000;
    let out: u128 = (min_v as u128) + add;
    if out > 0xffff_ffff_ffff_ffff {
        return Err(ErrorCode::MathOverflow);
    }
    Ok(out as u64)
}

/// A score of at most 100% interpolates to a value between the two bounds.
pub proof fn lemma_interpolate_bounds(score_bps: int, min_v: int, max_v: int)
    requires
        0 <= score_bps,
        min_v <= max_v,
    ensures
        min_v <= interpolate(score_bps, min_v, max_v),
        score_bps <= 10000 ==> interpolate(score_bps, min_v, max_v) <= max_v,
{
    let span = max_v - min_v;
    assert(0 <= score_bps * span) by (nonlinear_arith)
        requires
            0 <= score_bps,
            0 <= span,
    ;
    if score_bps <= 10000 {
        assert(score_bps * span <= 10000 * span) by (nonlinear_arith)
            requires
                0 <= score_bps <= 10000,
                0 <= span,
        ;
    }
}

/// Moves `current` toward `target` by at most the slew budget.
pub fn slew_limit_u16(current: u16, target: u16, max_slew_bps: u16) -> (r: Result<u16, ErrorCode>)
    ensures
        r == Ok::<u16, ErrorCode>(
            slew_limited(current as int, target as int, max_slew_bps as int) as u16,
        ),
        0 <= slew_limited(current as int, target as int, max_slew_bps as int) <= u16::MAX,
{
    if current == target {
        return Ok(current);
    }
    if current == 0 {
        return Ok(target);
    }
    assert(0 <= (current as u32) * (max_slew_bps as u32) <= 0xffff * 0xffff) by (nonlinear_arith)
        requires
            current <= 0xffff,
            max_slew_bps <= 0xffff,
    ;
    let share: u32 = (current as u32) * (max_slew_bps as u32) / 10_000;
    let max_delta: u32 = if share < 1 {
        1
    } else {
        share
    };
    let cur: u32 = current as u32;
    let tar: u32 = target as u32;
    let limited: u32 = if tar > cur {
        if tar - cur <= max_delta {
            tar
        } else {
            cur + max_delta
        }
    } else {
        if cur - tar <= max_delta {
            tar
        } else {
            cur - max_delta
        }
    };
    Ok(limited as u16)
}

/// Moves `current` toward `target` by at most the slew budget.
pub fn slew_limit_u64(current: u64, target: u64, max_slew_bps: u16) -> (r: Result<u64, ErrorCode>)
    ensures
        r == Ok::<u64, ErrorCode>(
            slew_limited(current as int, target as int, max_slew_bps as int) as u64,
        ),
        0 <= slew_limited(current as int, target as int, max_slew_bps as int) <= u64::MAX,
{
    if current == target {
        return Ok(current);
    }
    if current == 0 {
        return Ok(target);
    }
    assert(0 <= (current as u128) * (max_slew_bps as u128) <= 0xffff_ffff_ffff_ffff * 0xffff)
        by (nonlinear_arith)
        requires
            current <= 0xffff_ffff_ffff_ffff,
            max_slew_bps <= 0xffff,
    ;
    let share: u128 = (current as u128) * (max_slew_bps as u128) / 10_000;
    let max_delta: u128 = if share < 1 {
        1
    } else {
        share
    };
    let cur: u128 = current as u128;
    let tar: u128 = target as u128;
    let limited: u128 = if tar > cur {
        if tar - cur <= max_delta {
            tar
        } else {
            cur + max_delta
        }
    } else {
        if cur - tar <= max_delta {
            tar
        } else {
            cur - max_delta
        }
    };
    Ok(limited as u64)
}

/// The carry bias for band and interval, in basis points; both get the same.
pub fn carry_policy_bias_bps(expected_carry_bps: i32) -> (r: Result<(i16, i16), ErrorCode>)
    ensures
        r == Ok::<(i16, i16), ErrorCode>(
            (carry_bias(expected_carry_bps as int) as i16, carry_bias(expected_carry_bps as int) as i16),
        ),
{
    if expected_carry_bps >= 50 {
        return Ok((200, 200));
    }
    if expected_carry_bps <= -50 {
        return Ok((-200, -200));
    }
    Ok((0, 0))
}

/// Applies a relative bias to a 16-bit value; the result is limited to the
/// range of the type.
pub fn apply_bps_bias_u16(v: u16, bias_bps: i16) -> (r: Result<u16, ErrorCode>)
    ensures
        r == Ok::<u16, ErrorCode>(
            max_int(0, min_int(biased(v as int, bias_bps as int), u16::MAX as int)) as u16,
        ),
{
    if bias_bps == 0 {
        assert(v * 0 == 0);
        return Ok(v);
    }
    let v_wide: i128 = v as i128;
    assert(-0x8000 * 0xffff <= v_wide * (bias_bps as i128) <= 0x7fff * 0xffff) by (nonlinear_arith)
        requires
            0 <= v_wide <= 0xffff,
            -0x8000 <= bias_bps <= 0x7fff,
    ;
    let adj: i128 = v_wide * (bias_bps as i128) / 10_000;
    let out: i128 = v_wide + adj;
    if out < 0 {
        Ok(0)
    } else if out > 0xffff {
        Ok(0xffff)
    } else {
        Ok(out as u16)
    }
}

/// Applies a relative bias to a 64-bit value; a negative result becomes zero,
/// one above the range of the type is an overflow.
pub fn apply_bps_bias_u64(v: u64, bias_bps: i16) -> (r: Result<u64, ErrorCode>)
    ensures
        biased(v as int, bias_bps as int) > u64::MAX ==> r == Err::<u64, ErrorCode>(
            ErrorCode::MathOverflow,
        ),
        biased(v as int, bias_bps as int) <= u64::MAX ==> r == Ok::<u64, ErrorCode>(
            max_int(0, biased(v as int, bias_bps as int)) as u64,
        ),
{
    if bias_bps == 0 {
        assert(v * 0 == 0);
        return Ok(v);
    }
    let v_wide: i128 = v as i128;
    assert(-0x8000 * 0xffff_ffff_ffff_ffff <= v_wide * (bias_bps as i128) <= 0x7fff
        * 0xffff_ffff_ffff_ffff) by (nonlinear_arith)
        requires
            0 <= v_wide <= 0xffff_ffff_ffff_ffff,
            -0x8000 <= bias_bps <= 0x7fff,
    ;
    let adj: i128 = v_wide * (bias_bps as i128) / 10_000;
    let out: i128 = v_wide + adj;
    if out > 0xffff_ffff_ffff_ffff {
        Err(ErrorCode::MathOverflow)
    } else if out < 0 {
        Ok(0)
    } else {
        Ok(out as u64)
    }
}

/// The slew limit keeps the result between the current value and the
/// target, and, from a current value above zero, within one budget of it.
pub proof fn lemma_slew_limited_bounds(current: int, target: int, max_slew_bps: int)
    requires
        0 <= current,
        0 <= target,
    ensures
        min_int(current, target) <= slew_limited(current, target, max_slew_bps) <= max_int(
            current,
            target,
        ),
        current > 0 ==> abs_diff(slew_limited(current, target, max_slew_bps), current)
            <= slew_budget(current, max_slew_bps),
        current > 0 ==> abs_diff(slew_limited(current, target, max_slew_bps), current) <= max_int(
            1,
            current * max_slew_bps / 10000,
        ),
{
}

/// The blend of two volatilities that are not negative lies between 0 and 100%.
pub proof fn lemma_blended_score_range(realized: int, implied: int, w_realized: int, w_implied: int)
    requires
        0 <= realized,
        0 <= implied,
        0 <= w_realized,
        0 <= w_implied,
    ensures
        0 <= blended_score(realized, implied, w_realized, w_implied) <= 10000,
{
    assert(0 <= w_realized * realized) by (nonlinear_arith)
        requires
            0 <= realized,
            0 <= w_realized,
    ;
    assert(0 <= w_implied * implied) by (nonlinear_arith)
        requires
            0 <= implied,
            0 <= w_implied,
    ;
}

} // verus!

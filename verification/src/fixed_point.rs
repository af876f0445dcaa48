//! Integer arithmetic over the two scales of the vault: a fixed point of six
//! decimals for prices and returns, and basis points for ratios.

use vstd::prelude::*;
use crate::errors::ErrorCode;

verus! {

/// Number of return samples the ring holds.
pub const N_RETURNS: usize = 32;

/// Scale of a return sample: 1_000_000 is a return of 100%.
pub const RET_FP_SCALE: i64 = 1_000_000;

/// Scale of a price: 1_000_000 is one unit of the quote currency.
pub const PRICE_FP_SCALE: i64 = 1_000_000;

/// Basis-point denominator: 10,000 bps is 100%.
pub const BPS_DENOM: u16 = 10_000;

/// Largest volatility score, in basis points.
pub const MAX_VOL_BPS: u16 = 10_000;

/// Largest magnitude of one return sample (25%), scaled by `RET_FP_SCALE`.
pub const MAX_RETURN_ABS_FP: i32 = 250_000;

/// Hard ceiling of a fixed-point price.
pub const MAX_PRICE_FP: i64 = 10_000_000_000_000i64;

/// Ceiling of a variance, in squared fixed-point units.
pub const MAX_VAR_FP2: u128 = 10_000_000_000_000_000u128;

/// Capacity of the keeper table.
pub const MAX_KEEPERS: usize = 8;

/// Default slew cap of the policy: 10% of the current value per update.
pub const DEFAULT_MAX_POLICY_SLEW_BPS: u16 = 1_000;

/// Default hysteresis threshold of the volatility score: 1%.
pub const DEFAULT_HYSTERESIS_BPS: u16 = 100;

/// Default drift that lets a hedge through while the oracle is degraded: 20%.
pub const DEFAULT_EXTREME_DRIFT_BPS: u16 = 2_000;

/// Quotient of `a` by a positive `b`, rounded toward zero.
pub open spec fn trunc_div(a: int, b: int) -> int {
    if a >= 0 {
        a / b
    } else {
        -((-a) / b)
    }
}

/// The smaller of two integers.
pub open spec fn min_int(a: int, b: int) -> int {
    if a <= b {
        a
    } else {
        b
    }
}

/// The larger of two integers.
pub open spec fn max_int(a: int, b: int) -> int {
    if a >= b {
        a
    } else {
        b
    }
}

/// The distance between two integers.
pub open spec fn abs_diff(a: int, b: int) -> int {
    if a >= b {
        a - b
    } else {
        b - a
    }
}

/// The magnitude of an integer.
pub open spec fn abs_int(a: int) -> int {
    if a < 0 {
        -a
    } else {
        a
    }
}

/// Absolute value of a signed 64-bit amount. The most negative value has no
/// 64-bit magnitude and is left out.
pub fn abs_i64(x: i64) -> (r: i64)
    requires
        x > i64::MIN,
    ensures
        r == abs_int(x as int),
{
    if x < 0 {
        -x
    } else {
        x
    }
}

/// Limits a wide integer to `[min, max]`; the lower bound is tested first.
pub fn clamp_i128_to_i64(x: i128, min: i64, max: i64) -> (r: Result<i64, ErrorCode>)
    ensures
        r == Ok::<i64, ErrorCode>(
            if x < min {
                min
            } else if x > max {
                max
            } else {
                x as i64
            },
        ),
{
    if x < (min as i128) {
        return Ok(min);
    }
    if x > (max as i128) {
        return Ok(max);
    }
    Ok(x as i64)
}

/// Ten to the power `n`.
pub open spec fn pow10(n: nat) -> nat
    decreases n,
{
    if n == 0 {
        1
    } else {
        10 * pow10((n - 1) as nat)
    }
}

/// Powers of ten grow with the exponent.
pub proof fn lemma_pow10_monotonic(i: nat, j: nat)
    requires
        i <= j,
    ensures
        1 <= pow10(i) <= pow10(j),
    decreases j,
{
    if j == 0 {
    } else if i == j {
        lemma_pow10_monotonic(0, (j - 1) as nat);
    } else {
        lemma_pow10_monotonic(i, (j - 1) as nat);
    }
}

/// The largest power of ten below 2^127 is the 38th.
pub proof fn lemma_pow10_38()
    ensures
        pow10(38) == 100000000000000000000000000000000000000int,
        pow10(38) <= i128::MAX,
        pow10(39) > i128::MAX,
{
    reveal_with_fuel(pow10, 40);
}

/// Ten to the power `exp`, as long as it fits 128 signed bits.
pub fn pow10_i128(exp: u32) -> (r: Result<i128, ErrorCode>)
    ensures
        exp <= 38 ==> r == Ok::<i128, ErrorCode>(pow10(exp as nat) as i128),
        exp > 38 ==> r == Err::<i128, ErrorCode>(ErrorCode::MathOverflow),
        exp <= 38 ==> 1 <= pow10(exp as nat) <= i128::MAX,
{
    let mut v: i128 = 1;
    let mut i: u32 = 0;
    proof {
        lemma_pow10_38();
        if exp <= 38 {
            lemma_pow10_monotonic(exp as nat, 38);
        }
    }
    while i < exp
        invariant
            i <= exp,
            i <= 38,
            v == pow10(i as nat),
            pow10(38) <= i128::MAX,
            pow10(39) > i128::MAX,
        decreases exp - i,
    {
        proof {
            if i < 38 {
                lemma_pow10_monotonic((i + 1) as nat, 38);
            }
        }
        match v.checked_mul(10) {
            Some(next) => {
                v = next;
            },
            None => {
                return Err(ErrorCode::MathOverflow);
            },
        }
        i = i + 1;
    }
    Ok(v)
}

/// A value quoted with the decimal exponent `expo`, taken to six decimals:
/// multiplied by a power of ten where `expo` is above -6, divided (toward
/// zero) where it is below.
pub open spec fn scaled_fp(x: int, expo: int) -> int {
    if expo + 6 >= 0 {
        x * pow10((expo + 6) as nat)
    } else {
        trunc_div(x, pow10((-(expo + 6)) as nat) as int)
    }
}

/// Whether `x`, quoted with exponent `expo`, can be taken to six decimals
/// within 128 signed bits.
pub open spec fn scales_within_i128(x: int, expo: int) -> bool {
    if expo + 6 >= 0 {
        expo + 6 <= 38 && i128::MIN <= x * pow10((expo + 6) as nat) <= i128::MAX
    } else {
        -(expo + 6) <= 38
    }
}

/// Rescales a price and its confidence from the exponent `expo` to six decimals.
pub fn scale_to_fp_1e6(price: i128, conf: i128, expo: i32) -> (r: Result<(i128, i128), ErrorCode>)
    ensures
        scales_within_i128(price as int, expo as int) && scales_within_i128(conf as int, expo as int)
            ==> r == Ok::<(i128, i128), ErrorCode>(
            (scaled_fp(price as int, expo as int) as i128, scaled_fp(conf as int, expo as int) as i128),
        ),
        !(scales_within_i128(price as int, expo as int) && scales_within_i128(
            conf as int,
            expo as int,
        )) ==> r == Err::<(i128, i128), ErrorCode>(ErrorCode::MathOverflow),
        scales_within_i128(price as int, expo as int) ==> i128::MIN <= scaled_fp(
            price as int,
            expo as int,
        ) <= i128::MAX,
        scales_within_i128(conf as int, expo as int) ==> i128::MIN <= scaled_fp(
            conf as int,
            expo as int,
        ) <= i128::MAX,
{
    let expo_adj: i64 = (expo as i64) + 6;
    if expo_adj >= 0 {
        let m = match pow10_i128(expo_adj as u32) {
            Ok(m) => m,
            Err(e) => {
                return Err(e);
            },
        };
        let p = match price.checked_mul(m) {
            Some(p) => p,
            None => {
                return Err(ErrorCode::MathOverflow);
            },
        };
        let c = match conf.checked_mul(m) {
            Some(c) => c,
            None => {
                return Err(ErrorCode::MathOverflow);
            },
        };
        Ok((p, c))
    } else {
        let d = match pow10_i128((-expo_adj) as u32) {
            Ok(d) => d,
            Err(e) => {
                return Err(e);
            },
        };
        Ok((price / d, conf / d))
    }
}

/// Whether `r` is the integer square root of `n`: the largest integer whose
/// square is at most `n`.
pub open spec fn is_floor_sqrt(n: int, r: int) -> bool {
    0 <= r && r * r <= n < (r + 1) * (r + 1)
}

/// The integer square root of `n`.
pub closed spec fn floor_sqrt(n: nat) -> nat {
    choose|r: nat| is_floor_sqrt(n as int, r as int)
}

/// Two integer square roots of one number are equal.
pub proof fn lemma_floor_sqrt_unique(n: int, a: int, b: int)
    requires
        is_floor_sqrt(n, a),
        is_floor_sqrt(n, b),
    ensures
        a == b,
{
    if a < b {
        assert((a + 1) * (a + 1) <= b * b) by (nonlinear_arith)
            requires
                0 <= a,
                a + 1 <= b,
        ;
    } else if b < a {
        assert((b + 1) * (b + 1) <= a * a) by (nonlinear_arith)
            requires
                0 <= b,
                b + 1 <= a,
        ;
    }
}

/// Every natural number has an integer square root, at most the number itself.
pub proof fn lemma_floor_sqrt_exists(n: nat) -> (r: nat)
    ensures
        is_floor_sqrt(n as int, r as int),
        r <= n,
    decreases n,
{
    if n == 0 {
        0
    } else {
        let p = lemma_floor_sqrt_exists((n - 1) as nat);
        if (p + 1) * (p + 1) <= n {
            assert((p + 2) * (p + 2) > n) by (nonlinear_arith)
                requires
                    n - 1 < (p + 1) * (p + 1),
                    0 <= p,
            ;
            assert(p + 1 <= n) by (nonlinear_arith)
                requires
                    (p + 1) * (p + 1) <= n,
                    0 <= p,
            ;
            p + 1
        } else {
            p
        }
    }
}

/// `floor_sqrt(n)` is the one integer square root of `n`.
pub proof fn lemma_floor_sqrt(n: nat, r: int)
    ensures
        is_floor_sqrt(n as int, floor_sqrt(n) as int),
        is_floor_sqrt(n as int, r) ==> r == floor_sqrt(n),
{
    let w = lemma_floor_sqrt_exists(n);
    if is_floor_sqrt(n as int, r) {
        lemma_floor_sqrt_unique(n as int, r, floor_sqrt(n) as int);
    }
}

/// One Newton step from any positive estimate lands at or above the root.
proof fn lemma_newton_step_above_root(n: int, x: int, root: int)
    requires
        1 <= x,
        0 <= n,
        is_floor_sqrt(n, root),
    ensures
        (x + n / x) / 2 >= root,
{
    let q = n / x;
    assert(n < x * (q + 1) && 0 <= q) by (nonlinear_arith)
        requires
            1 <= x,
            0 <= n,
            q == n / x,
    ;
    assert((x + q + 1) * (x + q + 1) >= 4 * (x * (q + 1))) by (nonlinear_arith);
    assert(2 * root < x + q + 1) by (nonlinear_arith)
        requires
            0 <= root,
            0 <= x + q + 1,
            root * root <= n,
            4 * n < (x + q + 1) * (x + q + 1),
    ;
}

/// If a Newton step does not go down, the estimate squared is at most `n`.
proof fn lemma_newton_fixpoint(n: int, x: int)
    requires
        1 <= x,
        0 <= n,
        (x + n / x) / 2 >= x,
    ensures
        x * x <= n,
{
    let q = n / x;
    assert(x * q <= n) by (nonlinear_arith)
        requires
            1 <= x,
            0 <= n,
            q == n / x,
    ;
    assert(x * x <= x * q) by (nonlinear_arith)
        requires
            1 <= x,
            x <= q,
    ;
}

/// A Newton step from an estimate between 1 and `n` stays between 1 and `n + 1`.
proof fn lemma_newton_step_range(n: int, x: int)
    requires
        1 <= x <= n,
    ensures
        2 <= x + n / x <= n + 1,
{
    let q = n / x;
    assert(x * q <= n && 1 <= q) by (nonlinear_arith)
        requires
            1 <= x <= n,
            q == n / x,
    ;
    assert(x + q <= x * q + 1) by (nonlinear_arith)
        requires
            1 <= x,
            1 <= q,
    ;
}

/// Integer square root by Newton's iteration.
pub fn isqrt_u128(n: u128) -> (r: u128)
    ensures
        r == floor_sqrt(n as nat),
        is_floor_sqrt(n as int, r as int),
{
    if n == 0 {
        proof {
            assert(is_floor_sqrt(0, 0)) by (nonlinear_arith);
            lemma_floor_sqrt(0, 0);
        }
        return 0;
    }
    if n == u128::MAX {
        proof {
            lemma_floor_sqrt(n as nat, 0xffff_ffff_ffff_ffff);
        }
        return 0xffff_ffff_ffff_ffff;
    }
    let ghost root = floor_sqrt(n as nat) as int;
    proof {
        lemma_floor_sqrt(n as nat, 0);
        assert((n + 1) * (n + 1) > n) by (nonlinear_arith)
            requires
                n >= 0,
        ;
        assert(n / n == 1) by (nonlinear_arith)
            requires
                n >= 1,
        ;
    }
    let mut x0: u128 = n;
    let mut x1: u128 = (x0 + 1) / 2;
    while x1 < x0
        invariant
            1 <= x0 <= n,
            n < u128::MAX,
            x1 == (x0 + n / x0) / 2,
            n < (x0 + 1) * (x0 + 1),
            is_floor_sqrt(n as int, root),
        decreases x0,
    {
        proof {
            lemma_newton_step_above_root(n as int, x0 as int, root);
            lemma_newton_step_range(n as int, x0 as int);
            assert((x1 + 1) * (x1 + 1) >= (root + 1) * (root + 1)) by (nonlinear_arith)
                requires
                    x1 >= root,
                    root >= 0,
            ;
        }
        x0 = x1;
        proof {
            lemma_newton_step_range(n as int, x0 as int);
        }
        x1 = (x1 + n / x1) / 2;
    }
    proof {
        lemma_newton_fixpoint(n as int, x0 as int);
        lemma_floor_sqrt(n as nat, x0 as int);
    }
    x0
}

/// A standard deviation in fixed point, in basis points and capped at 100%.
pub open spec fn std_to_bps(std_fp: int) -> int {
    min_int(std_fp * 10000 / 1000000, 10000)
}

/// Converts a fixed-point standard deviation to basis points, capped at 100%.
pub fn fp_to_bps(std_fp: u128) -> (r: Result<u16, ErrorCode>)
    ensures
        std_fp * 10000 <= u128::MAX ==> r == Ok::<u16, ErrorCode>(std_to_bps(std_fp as int) as u16),
        std_fp * 10000 > u128::MAX ==> r == Err::<u16, ErrorCode>(ErrorCode::MathOverflow),
        0 <= std_to_bps(std_fp as int) <= 10000,
{
    let scaled = match std_fp.checked_mul(10_000) {
        Some(v) => v,
        None => {
            return Err(ErrorCode::MathOverflow);
        },
    };
    let bps = scaled / 1_000_000;
    if bps > 10_000 {
        Ok(10_000)
    } else {
        Ok(bps as u16)
    }
}

/// Exponentially weighted average: the old value keeps the share `1 - alpha`,
/// the sample gets the share `alpha`; each share is rounded down.
pub open spec fn ewma(prev: int, x: int, alpha_bps: int) -> int {
    prev * (10000 - alpha_bps) / 10000 + x * alpha_bps / 10000
}

/// One step of the exponentially weighted average of a 128-bit quantity.
pub fn ewma_update_u128(prev: u128, x: u128, alpha_bps: u16) -> (r: Result<u128, ErrorCode>)
    ensures
        (alpha_bps <= 10000 && prev * (10000 - alpha_bps) <= u128::MAX && x * alpha_bps
            <= u128::MAX) ==> r == Ok::<u128, ErrorCode>(
            ewma(prev as int, x as int, alpha_bps as int) as u128,
        ),
        !(alpha_bps <= 10000 && prev * (10000 - alpha_bps) <= u128::MAX && x * alpha_bps
            <= u128::MAX) ==> r == Err::<u128, ErrorCode>(ErrorCode::MathOverflow),
{
    let a = alpha_bps as u128;
    if a > 10_000 {
        return Err(ErrorCode::MathOverflow);
    }
    let one_minus: u128 = 10_000 - a;
    let left = match prev.checked_mul(one_minus) {
        Some(v) => v / 10_000,
        None => {
            return Err(ErrorCode::MathOverflow);
        },
    };
    let right = match x.checked_mul(a) {
        Some(v) => v / 10_000,
        None => {
            return Err(ErrorCode::MathOverflow);
        },
    };
    Ok(left + right)
}

/// One step of the exponentially weighted average of a 16-bit quantity.
pub fn ewma_u16(prev: u16, x: u16, alpha_bps: u16) -> (r: Result<u16, ErrorCode>)
    ensures
        alpha_bps <= 10000 ==> r == Ok::<u16, ErrorCode>(
            min_int(ewma(prev as int, x as int, alpha_bps as int), u16::MAX as int) as u16,
        ),
        alpha_bps > 10000 ==> r == Err::<u16, ErrorCode>(ErrorCode::MathOverflow),
{
    let a = alpha_bps as u32;
    if a > 10_000 {
        return Err(ErrorCode::MathOverflow);
    }
    let one_minus: u32 = 10_000 - a;
    assert(0 <= (prev as u32) * one_minus <= 0xffff * 10000) by (nonlinear_arith)
        requires
            prev <= 0xffff,
            one_minus <= 10000,
    ;
    assert(0 <= (x as u32) * a <= 0xffff * 10000) by (nonlinear_arith)
        requires
            x <= 0xffff,
            a <= 10000,
    ;
    let left: u32 = (prev as u32) * one_minus / 10_000;
    let right: u32 = (x as u32) * a / 10_000;
    let out: u32 = left + right;
    if out > 0xffff {
        Ok(0xffff)
    } else {
        Ok(out as u16)
    }
}

} // verus!

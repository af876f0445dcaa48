use vol_weighted_staking::errors::ErrorCode;
use vol_weighted_staking::fixed_point::{
    abs_i64, clamp_i128_to_i64, ewma_u16, ewma_update_u128, fp_to_bps, isqrt_u128, pow10_i128,
    scale_to_fp_1e6,
};
use vol_weighted_staking::hedge::{
    compute_price_drift_bps, compute_reason_code, compute_slippage_bps,
    compute_target_hedge_notional_usd_delta,
};
use vol_weighted_staking::policy::{
    apply_bps_bias_u16, apply_bps_bias_u64, carry_policy_bias_bps, map_u16_by_bps, map_u64_by_bps,
    slew_limit_u16, slew_limit_u64, weighted_vol_score_bps,
};
use vol_weighted_staking::volatility::{
    compute_realized_vol_bps_mode, mad_vol_bps, median_i32, stdev_vol_bps, VolMode,
};

fn alternating(magnitude: i32) -> [i32; 32] {
    let mut ring = [0i32; 32];
    let mut i = 0;
    while i < 32 {
        ring[i] = if i % 2 == 0 { magnitude } else { -magnitude };
        i += 1;
    }
    ring
}

#[test]
fn abs_of_signed_amounts() {
    assert_eq!(abs_i64(-5), 5);
    assert_eq!(abs_i64(5), 5);
    assert_eq!(abs_i64(0), 0);
    assert_eq!(abs_i64(i64::MIN + 1), i64::MAX);
}

#[test]
fn clamp_limits_to_range() {
    assert_eq!(clamp_i128_to_i64(-1, 0, 10), Ok(0));
    assert_eq!(clamp_i128_to_i64(11, 0, 10), Ok(10));
    assert_eq!(clamp_i128_to_i64(7, 0, 10), Ok(7));
    assert_eq!(clamp_i128_to_i64(i128::MAX, 0, 10_000_000_000_000), Ok(10_000_000_000_000));
}

#[test]
fn powers_of_ten() {
    assert_eq!(pow10_i128(0), Ok(1));
    assert_eq!(pow10_i128(6), Ok(1_000_000));
    assert_eq!(pow10_i128(38), Ok(100_000_000_000_000_000_000_000_000_000_000_000_000i128));
    assert_eq!(pow10_i128(39), Err(ErrorCode::MathOverflow));
    assert_eq!(pow10_i128(u32::MAX), Err(ErrorCode::MathOverflow));
}

#[test]
fn scaling_to_six_decimals() {
    assert_eq!(scale_to_fp_1e6(12345, 267, -2), Ok((123_450_000, 2_670_000)));
    assert_eq!(scale_to_fp_1e6(12345, 267, -6), Ok((12345, 267)));
    assert_eq!(scale_to_fp_1e6(-12345, 267, -8), Ok((-123, 2)));
    assert_eq!(scale_to_fp_1e6(1, 1, 40), Err(ErrorCode::MathOverflow));
    assert_eq!(scale_to_fp_1e6(1, 1, -45), Err(ErrorCode::MathOverflow));
    assert_eq!(scale_to_fp_1e6(i128::MAX, 1, -5), Err(ErrorCode::MathOverflow));
    assert_eq!(scale_to_fp_1e6(1, 1, -44), Ok((0, 0)));
}

#[test]
fn integer_square_roots() {
    assert_eq!(isqrt_u128(0), 0);
    assert_eq!(isqrt_u128(1), 1);
    assert_eq!(isqrt_u128(15), 3);
    assert_eq!(isqrt_u128(16), 4);
    assert_eq!(isqrt_u128(17), 4);
    assert_eq!(isqrt_u128(10_000_000_000_000_000), 100_000_000);
    assert_eq!(isqrt_u128(u128::MAX), u64::MAX as u128);
    assert_eq!(isqrt_u128(u128::MAX - 1), u64::MAX as u128);
}

#[test]
fn standard_deviation_to_bps() {
    assert_eq!(fp_to_bps(250_000), Ok(2500));
    assert_eq!(fp_to_bps(99), Ok(0));
    assert_eq!(fp_to_bps(2_000_000), Ok(10_000));
    assert_eq!(fp_to_bps(u128::MAX), Err(ErrorCode::MathOverflow));
}

#[test]
fn exponential_averages() {
    assert_eq!(ewma_update_u128(1000, 2000, 2000), Ok(1200));
    assert_eq!(ewma_update_u128(1000, 2000, 10_000), Ok(2000));
    assert_eq!(ewma_update_u128(1000, 2000, 0), Ok(1000));
    assert_eq!(ewma_update_u128(1000, 2000, 10_001), Err(ErrorCode::MathOverflow));
    assert_eq!(ewma_update_u128(u128::MAX, 0, 1), Err(ErrorCode::MathOverflow));
    assert_eq!(ewma_u16(100, 200, 2000), Ok(120));
    assert_eq!(ewma_u16(0, 300, 2000), Ok(60));
    assert_eq!(ewma_u16(100, 200, 10_001), Err(ErrorCode::MathOverflow));
}

#[test]
fn blended_score_is_weighted_and_capped() {
    assert_eq!(weighted_vol_score_bps(2000, 4000, 6000, 4000), Ok(2800));
    assert_eq!(weighted_vol_score_bps(10_000, 10_000, 5000, 5000), Ok(10_000));
    assert_eq!(weighted_vol_score_bps(65_535, 65_535, 10_000, 10_000), Ok(10_000));
    assert_eq!(weighted_vol_score_bps(0, 0, 6000, 4000), Ok(0));
}

#[test]
fn score_maps_linearly_onto_bounds() {
    assert_eq!(map_u16_by_bps(5000, 100, 1000), Ok(550));
    assert_eq!(map_u16_by_bps(0, 100, 1000), Ok(100));
    assert_eq!(map_u16_by_bps(10_000, 100, 1000), Ok(1000));
    assert_eq!(map_u16_by_bps(7000, 300, 300), Ok(300));
    assert_eq!(map_u16_by_bps(5000, 10, 5), Err(ErrorCode::InvalidParams));
    assert_eq!(map_u16_by_bps(65_535, 0, 65_535), Err(ErrorCode::MathOverflow));
    assert_eq!(map_u64_by_bps(2500, 1000, 2000), Ok(1250));
    assert_eq!(map_u64_by_bps(2500, 2000, 1000), Err(ErrorCode::InvalidParams));
    assert_eq!(map_u64_by_bps(20_000, 0, u64::MAX), Err(ErrorCode::MathOverflow));
}

#[test]
fn round_trip_example_moves_by_one_slew_step() {
    let target = map_u16_by_bps(5000, 100, 1000).unwrap();
    assert_eq!(target, 550);
    assert_eq!(slew_limit_u16(100, target, 1000), Ok(110));
}

#[test]
fn slew_limit_caps_the_step() {
    assert_eq!(slew_limit_u16(100, 105, 1000), Ok(105));
    assert_eq!(slew_limit_u16(0, 550, 1000), Ok(550));
    assert_eq!(slew_limit_u16(1000, 0, 1000), Ok(900));
    assert_eq!(slew_limit_u16(5, 100, 1000), Ok(6));
    assert_eq!(slew_limit_u16(5, 0, 1000), Ok(4));
    assert_eq!(slew_limit_u16(300, 300, 1000), Ok(300));
    assert_eq!(slew_limit_u64(1000, 5000, 500), Ok(1050));
    assert_eq!(slew_limit_u64(1000, 10, 500), Ok(950));
    assert_eq!(slew_limit_u64(0, 77, 500), Ok(77));
    assert_eq!(slew_limit_u64(u64::MAX, 0, 10_000), Ok(0));
    assert_eq!(slew_limit_u64(u64::MAX - 1, u64::MAX, 10_000), Ok(u64::MAX));
}

#[test]
fn slew_bound_holds_on_a_grid() {
    let currents = [1u16, 2, 9, 10, 99, 100, 1000, 9999, 65_535];
    let targets = [0u16, 1, 50, 100, 5000, 65_535];
    let slews = [1u16, 100, 1000, 10_000];
    for &c in currents.iter() {
        for &t in targets.iter() {
            for &s in slews.iter() {
                let next = slew_limit_u16(c, t, s).unwrap();
                let step = if next >= c { next - c } else { c - next } as u32;
                let budget = std::cmp::max(1, (c as u32) * (s as u32) / 10_000);
                assert!(step <= budget);
                assert!(next >= std::cmp::min(c, t) && next <= std::cmp::max(c, t));
            }
        }
    }
}

#[test]
fn carry_bias_has_a_dead_band() {
    assert_eq!(carry_policy_bias_bps(50), Ok((200, 200)));
    assert_eq!(carry_policy_bias_bps(49), Ok((0, 0)));
    assert_eq!(carry_policy_bias_bps(-49), Ok((0, 0)));
    assert_eq!(carry_policy_bias_bps(-50), Ok((-200, -200)));
    assert_eq!(carry_policy_bias_bps(i32::MAX), Ok((200, 200)));
}

#[test]
fn bias_is_a_share_of_the_value() {
    assert_eq!(apply_bps_bias_u16(550, 200), Ok(561));
    assert_eq!(apply_bps_bias_u16(550, -200), Ok(539));
    assert_eq!(apply_bps_bias_u16(550, 0), Ok(550));
    assert_eq!(apply_bps_bias_u16(65_535, 200), Ok(65_535));
    assert_eq!(apply_bps_bias_u16(100, -20_000), Ok(0));
    assert_eq!(apply_bps_bias_u64(1000, 200), Ok(1020));
    assert_eq!(apply_bps_bias_u64(1000, -200), Ok(980));
    assert_eq!(apply_bps_bias_u64(49, -200), Ok(49));
    assert_eq!(apply_bps_bias_u64(u64::MAX, 200), Err(ErrorCode::MathOverflow));
    assert_eq!(apply_bps_bias_u64(100, -20_000), Ok(0));
}

#[test]
fn median_sorts_and_averages_the_middle() {
    let mut up = [0i32; 32];
    for i in 0..32 {
        up[i] = (31 - i) as i32;
    }
    assert_eq!(median_i32(&mut up), 15);
    for i in 0..32 {
        assert_eq!(up[i], i as i32);
    }
    let mut down = [0i32; 32];
    for i in 0..32 {
        down[i] = -(i as i32) - 1;
    }
    assert_eq!(median_i32(&mut down), -16);
    assert_eq!(down[0], -32);
    assert_eq!(down[31], -1);
    let mut wide = [i32::MAX; 32];
    assert_eq!(median_i32(&mut wide), i32::MAX);
}

#[test]
fn standard_deviation_estimate() {
    assert_eq!(stdev_vol_bps(&[0i32; 32]), Ok(0));
    assert_eq!(stdev_vol_bps(&[250_000i32; 32]), Ok(0));
    assert_eq!(stdev_vol_bps(&alternating(10_000)), Ok(100));
    assert_eq!(stdev_vol_bps(&alternating(250_000)), Ok(2500));
    assert_eq!(stdev_vol_bps(&alternating(i32::MAX)), Ok(10_000));
}

#[test]
fn median_absolute_deviation_estimate() {
    assert_eq!(mad_vol_bps(&[0i32; 32]), Ok(0));
    assert_eq!(mad_vol_bps(&alternating(10_000)), Ok(148));
    assert_eq!(mad_vol_bps(&alternating(250_000)), Ok(3706));
    let mut one_outlier = [0i32; 32];
    one_outlier[7] = 250_000;
    assert_eq!(mad_vol_bps(&one_outlier), Ok(0));
}

#[test]
fn estimator_follows_the_mode() {
    let ring = alternating(10_000);
    assert_eq!(compute_realized_vol_bps_mode(VolMode::Stdev, &ring, 0), Ok(100));
    assert_eq!(compute_realized_vol_bps_mode(VolMode::Mad, &ring, 0), Ok(148));
    assert_eq!(compute_realized_vol_bps_mode(VolMode::Ewma, &ring, 0), Ok(0));
    assert_eq!(compute_realized_vol_bps_mode(VolMode::Ewma, &ring, 400_000_000), Ok(200));
    assert_eq!(compute_realized_vol_bps_mode(VolMode::Ewma, &ring, u128::MAX), Ok(10_000));
}

#[test]
fn mode_numbers_round_trip() {
    assert_eq!(VolMode::from_code(0), Some(VolMode::Stdev));
    assert_eq!(VolMode::from_code(1), Some(VolMode::Ewma));
    assert_eq!(VolMode::from_code(2), Some(VolMode::Mad));
    assert_eq!(VolMode::from_code(3), None);
    assert_eq!(VolMode::Mad.code(), 2);
}

#[test]
fn drift_example() {
    assert_eq!(compute_price_drift_bps(103_000_000, 100_000_000), Ok(300));
    assert_eq!(compute_price_drift_bps(97_000_000, 100_000_000), Ok(300));
    assert_eq!(compute_price_drift_bps(103_000_000, 0), Ok(10_000));
    assert_eq!(compute_price_drift_bps(0, 100_000_000), Ok(0));
    assert_eq!(compute_price_drift_bps(i64::MAX, 1), Ok(10_000));
}

#[test]
fn hedge_sizing_example() {
    assert_eq!(
        compute_target_hedge_notional_usd_delta(100, 100_000_000, 5000, 1_000_000),
        Ok(-5000)
    );
    assert_eq!(compute_target_hedge_notional_usd_delta(0, 100_000_000, 5000, 1_000_000), Ok(0));
    assert_eq!(compute_target_hedge_notional_usd_delta(100, 0, 5000, 1_000_000), Ok(0));
    assert_eq!(
        compute_target_hedge_notional_usd_delta(100, 100_000_000, 5000, -1_000_000),
        Ok(-5000)
    );
    assert_eq!(
        compute_target_hedge_notional_usd_delta(100, 100_000_000, 10_000, 900_000),
        Ok(-9000)
    );
    assert_eq!(
        compute_target_hedge_notional_usd_delta(u64::MAX, i64::MAX, 65_535, i64::MAX),
        Err(ErrorCode::MathOverflow)
    );
    assert_eq!(
        compute_target_hedge_notional_usd_delta(u64::MAX, i64::MAX, 10_000, 1_000_000),
        Err(ErrorCode::MathOverflow)
    );
    assert_eq!(
        compute_target_hedge_notional_usd_delta(u64::MAX, 500_000, 10_000, 1_000_000),
        Ok(-(i64::MAX))
    );
    assert_eq!(
        compute_target_hedge_notional_usd_delta(u64::MAX, 500_001, 10_000, 1_000_000),
        Err(ErrorCode::MathOverflow)
    );
}

#[test]
fn slippage_against_reference() {
    assert_eq!(compute_slippage_bps(101_000_000, 100_000_000), Ok(100));
    assert_eq!(compute_slippage_bps(99_500_000, 100_000_000), Ok(50));
    assert_eq!(compute_slippage_bps(300_000_000, 100_000_000), Ok(10_000));
    assert_eq!(compute_slippage_bps(100, 0), Err(ErrorCode::InvalidParams));
}

#[test]
fn reason_codes() {
    assert_eq!(compute_reason_code(true, true), 3);
    assert_eq!(compute_reason_code(true, false), 1);
    assert_eq!(compute_reason_code(false, true), 2);
    assert_eq!(compute_reason_code(false, false), 0);
}

#[test]
fn error_messages_name_the_failure() {
    assert_eq!(ErrorCode::Paused.message(), "Program is paused");
    assert_eq!(ErrorCode::WrongRequestId.message(), "Wrong request id");
    assert_eq!(ErrorCode::MathOverflow.message(), "Math overflow");
}

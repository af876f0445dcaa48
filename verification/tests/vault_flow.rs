use vol_weighted_staking::errors::ErrorCode;
use vol_weighted_staking::hedge_flow::{confirm_hedge, request_hedge};
use vol_weighted_staking::initialize::initialize_vault;
use vol_weighted_staking::keys::Address;
use vol_weighted_staking::oracle::{FeedQuote, OracleFeedChoice, PythPrice};
use vol_weighted_staking::oracle_update::update_oracle_price_from_quotes;
use vol_weighted_staking::policy_update::update_epoch_and_policy;
use vol_weighted_staking::state::{InitializeParams, VaultState};
use vol_weighted_staking::vault_ops::{
    deposit_and_stake, deposit_reserve, update_carry_inputs, update_implied_vol,
};
use vol_weighted_staking::volatility::VolMode;

fn authority() -> Address {
    Address::new([1u8; 32])
}

fn stranger() -> Address {
    Address::new([9u8; 32])
}

fn params() -> InitializeParams {
    InitializeParams {
        min_band_bps: 100,
        max_band_bps: 1000,
        min_interval_slots: 10,
        max_interval_slots: 100,
        vol_weight_realized_bps: 0,
        vol_weight_implied_bps: 10_000,
        min_samples: 4,
        min_return_spacing_slots: 5,
        policy_update_min_slots: 50,
        max_policy_slew_bps: 1000,
        hysteresis_bps: 100,
        vol_mode: 0,
        ewma_alpha_bps: 2000,
        max_staked_sol: 1_000_000,
        max_abs_hedge_notional_usd: 10_000_000,
        max_hedge_per_sol_usd_fp: 200_000_000,
        min_reserve_bps: 1000,
        oracle_feed_choice: 3,
        max_price_age_seconds: 60,
        max_confidence_bps: 100,
        max_price_jump_bps: 500,
        target_delta_bps: 5000,
        lst_beta_fp: 1_000_000,
        max_confirm_delay_slots: 20,
        extreme_drift_bps: 2000,
        max_updates_per_epoch: 3,
        keeper_bond_required_lamports: 0,
    }
}

fn vault() -> VaultState {
    initialize_vault(authority(), 255, params()).unwrap().0
}

fn priced_vault() -> VaultState {
    let mut s = vault();
    let q = Some(quote(100_000_000, 100_000_000, 1000));
    update_oracle_price_from_quotes(&mut s, &authority(), q, None, 1, 1010).unwrap();
    s
}

fn quote(spot: i64, ema: i64, publish_time: i64) -> FeedQuote {
    FeedQuote {
        spot: PythPrice { price: spot, conf: 1000, expo: -6, publish_time },
        ema: PythPrice { price: ema, conf: 1000, expo: -6, publish_time },
    }
}

fn nonzero_by_scan(s: &VaultState) -> u16 {
    s.returns_ring.iter().filter(|r| **r != 0).count() as u16
}

#[test]
fn a_new_vault_starts_at_its_lower_bounds() {
    let (s, event) = initialize_vault(authority(), 255, params()).unwrap();
    assert_eq!(s.authority, authority());
    assert_eq!(s.keeper_admin, authority());
    assert_eq!(s.pending_authority, Address::none());
    assert_eq!(s.vault_bump, 255);
    assert_eq!(s.config_version, 1);
    assert_eq!(s.band_bps, 100);
    assert_eq!(s.min_hedge_interval_slots, 10);
    assert_eq!(s.returns_ring, [0i32; 32]);
    assert_eq!(s.nonzero_samples, 0);
    assert_eq!(s.keeper_count, 0);
    assert_eq!(s.vol_mode, VolMode::Stdev);
    assert_eq!(s.oracle_feed_choice, OracleFeedChoice::AutoPreferUsdThenUsdc);
    assert!(!s.oracle_ok && !s.oracle_degraded && !s.paused && !s.request_outstanding);
    assert_eq!(event.config_hash, s.config_hash);
    assert_eq!(event.config_version, 1);
    assert_eq!(event.vol_mode, 0);
    assert_eq!(event.oracle_feed_choice, 3);
    assert_eq!(event.extreme_drift_bps, 2000);
    assert_ne!(s.config_hash, [0u8; 32]);
}

#[test]
fn parameters_are_validated() {
    let ok = params();
    let cases: Vec<InitializeParams> = vec![
        InitializeParams { min_band_bps: 1001, ..ok },
        InitializeParams { max_band_bps: 10_001, ..ok },
        InitializeParams { min_interval_slots: 101, ..ok },
        InitializeParams { vol_weight_realized_bps: 1, ..ok },
        InitializeParams { vol_weight_implied_bps: 10_001, vol_weight_realized_bps: 0, ..ok },
        InitializeParams { min_samples: 0, ..ok },
        InitializeParams { min_samples: 33, ..ok },
        InitializeParams { min_return_spacing_slots: 0, ..ok },
        InitializeParams { policy_update_min_slots: 0, ..ok },
        InitializeParams { max_policy_slew_bps: 0, ..ok },
        InitializeParams { max_policy_slew_bps: 10_001, ..ok },
        InitializeParams { hysteresis_bps: 10_001, ..ok },
        InitializeParams { max_staked_sol: 0, ..ok },
        InitializeParams { max_abs_hedge_notional_usd: 0, ..ok },
        InitializeParams { max_hedge_per_sol_usd_fp: -1, ..ok },
        InitializeParams { min_reserve_bps: 10_001, ..ok },
        InitializeParams { vol_mode: 3, ..ok },
        InitializeParams { vol_mode: 1, ewma_alpha_bps: 0, ..ok },
        InitializeParams { vol_mode: 1, ewma_alpha_bps: 10_001, ..ok },
        InitializeParams { max_price_age_seconds: 0, ..ok },
        InitializeParams { max_confidence_bps: 10_001, ..ok },
        InitializeParams { max_price_jump_bps: 10_001, ..ok },
        InitializeParams { oracle_feed_choice: 0, ..ok },
        InitializeParams { oracle_feed_choice: 4, ..ok },
        InitializeParams { target_delta_bps: 10_001, ..ok },
        InitializeParams { lst_beta_fp: 0, ..ok },
        InitializeParams { max_confirm_delay_slots: 0, ..ok },
        InitializeParams { max_updates_per_epoch: 0, ..ok },
    ];
    for p in cases {
        assert_eq!(initialize_vault(authority(), 1, p).err(), Some(ErrorCode::InvalidParams));
    }
    assert!(initialize_vault(authority(), 1, InitializeParams { vol_mode: 0, ewma_alpha_bps: 0, ..ok }).is_ok());
    assert!(initialize_vault(authority(), 1, InitializeParams { extreme_drift_bps: 65_535, ..ok }).is_ok());
}

#[test]
fn deposits_respect_caps_and_reserve() {
    let mut s = vault();
    let before = s;
    assert_eq!(deposit_and_stake(&mut s, 1, 1000).err(), Some(ErrorCode::ReserveTooLow));
    assert_eq!(s, before);
    assert_eq!(deposit_and_stake(&mut s, 1, 0).err(), Some(ErrorCode::InvalidParams));
    assert_eq!(deposit_reserve(&mut s, 1, 0).err(), Some(ErrorCode::InvalidParams));
    let r = deposit_reserve(&mut s, 2, 100).unwrap();
    assert_eq!((r.epoch, r.slot, r.reserve_sol, r.min_reserve_bps), (0, 2, 100, 1000));
    let e = deposit_and_stake(&mut s, 3, 1000).unwrap();
    assert_eq!((e.slot, e.amount_sol, e.new_staked_sol, e.reserve_sol), (3, 1000, 1000, 100));
    assert_eq!(s.staked_sol, 1000);
    assert_eq!(deposit_and_stake(&mut s, 4, 9).unwrap().new_staked_sol, 1009);
    assert_eq!(deposit_and_stake(&mut s, 4, 1).err(), Some(ErrorCode::ReserveTooLow));
    assert_eq!(deposit_and_stake(&mut s, 4, 1_000_000).err(), Some(ErrorCode::CapExceeded));
    assert_eq!(deposit_and_stake(&mut s, 4, u64::MAX).err(), Some(ErrorCode::MathOverflow));
    assert_eq!(deposit_reserve(&mut s, 4, u64::MAX).err(), Some(ErrorCode::MathOverflow));
    s.paused = true;
    assert_eq!(deposit_and_stake(&mut s, 5, 1).err(), Some(ErrorCode::Paused));
    assert_eq!(deposit_reserve(&mut s, 5, 1).err(), Some(ErrorCode::Paused));
    s.paused = false;
    s.reserve_sol = 5;
    assert_eq!(deposit_reserve(&mut s, 5, 1).err(), Some(ErrorCode::ReserveTooLow));
}

#[test]
fn the_first_price_becomes_the_baseline() {
    let mut s = vault();
    assert_eq!(s.try_record_oracle_return(10, 100_000_000), Ok(None));
    assert_eq!(s.return_baseline_price_fp, 100_000_000);
    assert_eq!(s.last_oracle_price_fp, 0);
    assert_eq!(s.last_return_slot, 10);
    assert_eq!(s.returns_ring, [0i32; 32]);
    assert_eq!(s.returns_idx, 0);
}

#[test]
fn samples_closer_than_the_spacing_change_nothing() {
    let mut s = vault();
    s.try_record_oracle_return(10, 100_000_000).unwrap();
    let before = s;
    assert_eq!(s.try_record_oracle_return(12, 150_000_000), Ok(None));
    assert_eq!(s, before);
    assert_eq!(s.try_record_oracle_return(14, 150_000_000), Ok(None));
    assert_eq!(s.try_record_oracle_return(3, 150_000_000), Ok(None));
    assert_eq!(s, before);
    let stored = s.try_record_oracle_return(15, 101_000_000).unwrap().unwrap();
    assert_eq!(stored.return_fp, 10_000);
    assert_eq!(stored.idx, 0);
    assert_eq!(stored.slot, 15);
    assert_eq!(stored.nonzero_samples, 1);
    assert_eq!(stored.oracle_price_fp, 101_000_000);
    assert_eq!(s.last_return_slot, 15);
    assert_eq!(s.try_record_oracle_return(19, 1), Ok(None));
    assert_eq!(s.returns_idx, 1);
}

#[test]
fn stored_samples_keep_their_distance() {
    let mut s = vault();
    let mut stored: Vec<u64> = Vec::new();
    let mut price = 100_000_000i64;
    for slot in 1..200u64 {
        let before = s;
        price += ((slot % 7) as i64 - 3) * 10_000;
        s.try_record_oracle_return(slot, price).unwrap();
        if s != before {
            stored.push(slot);
        }
    }
    assert!(stored.len() > 10);
    for pair in stored.windows(2) {
        assert!(pair[1] - pair[0] >= 5);
    }
}

#[test]
fn returns_are_clamped_and_counted() {
    let mut s = vault();
    s.try_record_oracle_return(10, 100_000_000).unwrap();
    s.try_record_oracle_return(15, 101_000_000).unwrap();
    let flat = s.try_record_oracle_return(20, 101_000_000).unwrap().unwrap();
    assert_eq!((flat.return_fp, flat.idx, flat.nonzero_samples), (0, 1, 1));
    let crash = s.try_record_oracle_return(25, 50_000_000).unwrap().unwrap();
    assert_eq!((crash.return_fp, crash.idx, crash.nonzero_samples), (-250_000, 2, 2));
    let spike = s.try_record_oracle_return(30, 500_000_000).unwrap().unwrap();
    assert_eq!((spike.return_fp, spike.idx, spike.nonzero_samples), (250_000, 3, 3));
    let small = s.try_record_oracle_return(35, 499_999_000).unwrap().unwrap();
    assert_eq!(small.return_fp, -2);
    assert_eq!(s.returns_ring[0..5], [10_000, 0, -250_000, 250_000, -2]);
    assert_eq!(s.nonzero_samples, 4);
}

#[test]
fn the_counter_equals_a_full_scan() {
    let mut s = vault();
    let mut price = 100_000_000i64;
    let mut slot = 7u64;
    for step in 0..300u64 {
        slot += 5 + step % 3;
        if step % 4 != 0 {
            price += ((step % 11) as i64 - 5) * 20_000;
        }
        s.try_record_oracle_return(slot, price).unwrap();
        assert_eq!(s.nonzero_samples, nonzero_by_scan(&s));
    }
    assert!(s.nonzero_samples > 0 && s.nonzero_samples < 32);
    for _ in 0..40 {
        slot += 5;
        s.try_record_oracle_return(slot, price).unwrap();
        assert_eq!(s.nonzero_samples, nonzero_by_scan(&s));
    }
    assert_eq!(s.nonzero_samples, 0);
    assert_eq!(s.returns_idx, ((300 + 40 - 1) % 256) as u8);
}

#[test]
fn a_broken_counter_is_an_overflow_and_changes_nothing() {
    let mut s = vault();
    s.return_baseline_price_fp = 100_000_000;
    s.nonzero_samples = u16::MAX;
    let before = s;
    assert_eq!(s.try_record_oracle_return(10, 101_000_000), Err(ErrorCode::MathOverflow));
    assert_eq!(s, before);
    s.nonzero_samples = 0;
    s.returns_ring[0] = 5;
    let before = s;
    assert_eq!(s.try_record_oracle_return(10, 100_000_000), Err(ErrorCode::MathOverflow));
    assert_eq!(s, before);
}

#[test]
fn the_running_variance_follows_the_samples() {
    let mut s = vault();
    s.vol_mode = VolMode::Ewma;
    s.try_record_oracle_return(10, 100_000_000).unwrap();
    s.try_record_oracle_return(15, 101_000_000).unwrap();
    assert_eq!(s.ewma_var_fp2, 20_000_000);
    s.try_record_oracle_return(20, 101_000_000).unwrap();
    assert_eq!(s.ewma_var_fp2, 16_000_000);
    s.ewma_alpha_bps = 10_001;
    let before = s;
    assert_eq!(s.try_record_oracle_return(25, 101_000_000), Err(ErrorCode::MathOverflow));
    assert_eq!(s, before);
    s.vol_mode = VolMode::Stdev;
    s.try_record_oracle_return(25, 102_000_000).unwrap();
    assert_eq!(s.ewma_var_fp2, 16_000_000);
}

#[test]
fn the_breaker_follows_the_last_attempt() {
    let mut s = vault();
    let who = authority();
    let out = update_oracle_price_from_quotes(
        &mut s, &who, Some(quote(100_000_000, 99_000_000, 1000)), None, 10, 1010,
    )
    .unwrap();
    assert!(out.degraded.is_none());
    assert!(out.recorded.is_none());
    assert_eq!(out.updated.feed_used, 1);
    assert!(out.updated.oracle_ok && !out.updated.oracle_degraded);
    assert_eq!(s.oracle_price_fp, 100_000_000);
    assert_eq!(s.oracle_ema_price_fp, 99_000_000);
    assert_eq!(s.last_oracle_price_fp, 100_000_000);
    assert_eq!(s.last_oracle_ema_price_fp, 99_000_000);
    assert_eq!(s.oracle_publish_time, 1000);
    assert_eq!((s.last_return_slot, s.return_baseline_price_fp), (10, 100_000_000));
    assert_eq!((s.returns_idx, s.nonzero_samples), (0, 0));

    let accepted = s;
    let out = update_oracle_price_from_quotes(
        &mut s, &who, Some(quote(120_000_000, 98_000_000, 1020)), None, 20, 1030,
    )
    .unwrap();
    let degraded = out.degraded.unwrap();
    assert_eq!((degraded.feed_used, degraded.reason_code, degraded.oracle_publish_time), (1, 3, 1020));
    assert!(out.recorded.is_none());
    assert_eq!(out.updated.oracle_price_fp, 120_000_000);
    assert_eq!(out.updated.oracle_ema_price_fp, 98_000_000);
    assert!(!out.updated.oracle_ok && out.updated.oracle_degraded);
    assert!(s.oracle_degraded && !s.oracle_ok);
    let mut expected = accepted;
    expected.oracle_ok = false;
    expected.oracle_degraded = true;
    assert_eq!(s, expected);

    let out = update_oracle_price_from_quotes(
        &mut s, &who, None, Some(quote(101_000_000, 100_000_000, 1040)), 30, 1045,
    )
    .unwrap();
    assert!(out.degraded.is_none());
    assert_eq!(out.updated.feed_used, 2);
    assert!(s.oracle_ok && !s.oracle_degraded);
    assert_eq!(s.last_oracle_price_fp, 101_000_000);
    let sample = out.recorded.unwrap();
    assert_eq!((sample.idx, sample.return_fp, sample.nonzero_samples), (0, 10_000, 1));
    assert_eq!(s.returns_ring[0], 10_000);
    assert_eq!((s.last_return_slot, s.return_baseline_price_fp), (30, 101_000_000));

    let before = s;
    let out = update_oracle_price_from_quotes(&mut s, &who, None, None, 40, 1050).unwrap();
    assert_eq!(out.degraded.unwrap().reason_code, 13);
    assert_eq!(out.updated.oracle_price_fp, 0);
    assert!(s.oracle_degraded);
    assert_eq!(s.oracle_price_fp, 101_000_000);
    assert_eq!(s.oracle_ema_price_fp, 100_000_000);
    assert_eq!(s.returns_ring, before.returns_ring);
}

#[test]
fn returns_are_measured_against_the_last_stored_price() {
    let mut s = vault();
    let who = authority();
    let feed_price = |s: &mut VaultState, slot: u64, p: i64| {
        let now = 1000 + (slot as i64) * 10;
        update_oracle_price_from_quotes(s, &who, Some(quote(p, p, now - 5)), None, slot, now)
            .unwrap()
    };
    assert!(feed_price(&mut s, 10, 100_000_000).recorded.is_none());
    let gated = feed_price(&mut s, 12, 101_000_000);
    assert!(gated.recorded.is_none());
    assert_eq!(s.last_oracle_price_fp, 101_000_000);
    assert_eq!(s.return_baseline_price_fp, 100_000_000);
    let stored = feed_price(&mut s, 15, 102_000_000).recorded.unwrap();
    assert_eq!((stored.return_fp, stored.idx, stored.nonzero_samples), (20_000, 0, 1));
    let stored = feed_price(&mut s, 20, 101_490_000).recorded.unwrap();
    assert_eq!((stored.return_fp, stored.idx, stored.nonzero_samples), (-5000, 1, 2));
    let stored = feed_price(&mut s, 25, 101_490_000).recorded.unwrap();
    assert_eq!((stored.return_fp, stored.idx, stored.nonzero_samples), (0, 2, 2));
    assert_eq!(s.returns_ring[0..3], [20_000, -5000, 0]);
    assert_eq!(nonzero_by_scan(&s), 2);
}

#[test]
fn oracle_updates_are_for_feeders_only() {
    let mut s = vault();
    let before = s;
    let q = Some(quote(100_000_000, 99_000_000, 1000));
    assert_eq!(
        update_oracle_price_from_quotes(&mut s, &stranger(), q, None, 10, 1010).err(),
        Some(ErrorCode::Unauthorized)
    );
    s.paused = true;
    assert_eq!(
        update_oracle_price_from_quotes(&mut s, &authority(), q, None, 10, 1010).err(),
        Some(ErrorCode::Paused)
    );
    s.paused = false;
    assert_eq!(s, before);
    let mut broken = quote(100_000_000, 99_000_000, 1000);
    broken.spot.expo = 70;
    assert_eq!(
        update_oracle_price_from_quotes(&mut s, &authority(), Some(broken), None, 10, 1010).err(),
        Some(ErrorCode::MathOverflow)
    );
    assert_eq!(s, before);
}

#[test]
fn policy_moves_one_slew_step_toward_its_target() {
    let mut s = priced_vault();
    let who = authority();
    update_implied_vol(&mut s, &who, 1, 5000).unwrap();
    let out = update_epoch_and_policy(&mut s, &who, 100).unwrap();
    let intent = out.intent.unwrap();
    assert_eq!(intent.vol_score_bps, 5000);
    assert_eq!(intent.target_band_bps, 550);
    assert_eq!(intent.target_interval_slots, 55);
    assert_eq!((intent.bias_band_bps, intent.bias_interval_bps), (0, 0));
    let updated = out.updated.unwrap();
    assert_eq!(updated.band_bps, 110);
    assert_eq!(updated.min_hedge_interval_slots, 11);
    assert!(updated.hysteresis_pass);
    assert!(out.frozen.is_none());
    assert_eq!(out.nav.nav_usd, 0);
    assert_eq!(out.nav.oracle_price_fp, 100_000_000);
    assert_eq!(out.epoch.epoch, 1);
    assert!(!out.epoch.realized_updated);
    assert_eq!(out.snapshot.band_bps, 110);
    assert_eq!(out.snapshot.slot_now, 100);
    assert_eq!((s.band_bps, s.min_hedge_interval_slots), (110, 11));
    assert_eq!((s.vol_score_bps, s.last_vol_score_bps, s.epoch), (5000, 5000, 1));
    assert_eq!(s.last_policy_update_slot, 100);
}

#[test]
fn policy_updates_wait_for_the_cooldown() {
    let mut s = priced_vault();
    let who = authority();
    update_implied_vol(&mut s, &who, 1, 5000).unwrap();
    update_epoch_and_policy(&mut s, &who, 100).unwrap();
    let before = s;
    assert_eq!(update_epoch_and_policy(&mut s, &who, 149).err(), Some(ErrorCode::PolicyCooldown));
    assert_eq!(update_epoch_and_policy(&mut s, &who, 50).err(), Some(ErrorCode::PolicyCooldown));
    assert_eq!(s, before);
    let out = update_epoch_and_policy(&mut s, &who, 150).unwrap();
    assert!(out.intent.is_none());
    assert!(!out.updated.unwrap().hysteresis_pass);
    assert_eq!((s.band_bps, s.min_hedge_interval_slots, s.epoch), (110, 11, 2));
}

#[test]
fn carry_biases_the_targets() {
    let mut s = priced_vault();
    let who = authority();
    update_implied_vol(&mut s, &who, 1, 5000).unwrap();
    update_epoch_and_policy(&mut s, &who, 100).unwrap();
    update_implied_vol(&mut s, &who, 101, 6000).unwrap();
    let carry = update_carry_inputs(&mut s, &who, 102, 60, 0, 0).unwrap();
    assert_eq!(carry.expected_carry_bps, 60);
    let out = update_epoch_and_policy(&mut s, &who, 150).unwrap();
    let intent = out.intent.unwrap();
    assert_eq!(intent.expected_carry_bps, 60);
    assert_eq!((intent.bias_band_bps, intent.target_band_bps), (200, 652));
    assert_eq!(intent.target_interval_slots, 65);
    assert_eq!((s.band_bps, s.min_hedge_interval_slots), (121, 12));
    update_implied_vol(&mut s, &who, 151, 1000).unwrap();
    update_carry_inputs(&mut s, &who, 152, 0, 100, 0).unwrap();
    let out = update_epoch_and_policy(&mut s, &who, 200).unwrap();
    let intent = out.intent.unwrap();
    assert_eq!(intent.expected_carry_bps, -100);
    assert_eq!((intent.bias_band_bps, intent.target_band_bps), (-200, 187));
    assert_eq!((s.band_bps, s.min_hedge_interval_slots), (133, 13));
}

#[test]
fn carry_saturates() {
    let mut s = vault();
    s.staking_bps_per_day = i32::MAX;
    s.funding_bps_per_day = 1;
    s.borrow_bps_per_day = 10;
    assert_eq!(s.expected_carry_bps(), i32::MAX - 10);
    s.staking_bps_per_day = i32::MIN;
    s.funding_bps_per_day = -1;
    s.borrow_bps_per_day = 10;
    assert_eq!(s.expected_carry_bps(), i32::MIN);
    s.staking_bps_per_day = 30;
    s.funding_bps_per_day = 40;
    s.borrow_bps_per_day = 25;
    assert_eq!(s.expected_carry_bps(), 45);
}

#[test]
fn a_degraded_oracle_freezes_the_policy() {
    let mut s = priced_vault();
    let who = authority();
    update_implied_vol(&mut s, &who, 1, 5000).unwrap();
    update_epoch_and_policy(&mut s, &who, 100).unwrap();
    update_oracle_price_from_quotes(&mut s, &who, None, None, 110, 1000).unwrap();
    assert!(s.oracle_degraded);
    update_implied_vol(&mut s, &who, 111, 9000).unwrap();
    let out = update_epoch_and_policy(&mut s, &who, 150).unwrap();
    let frozen = out.frozen.unwrap();
    assert_eq!((frozen.band_bps, frozen.min_hedge_interval_slots, frozen.reason_code), (110, 11, 1));
    assert!(out.intent.is_none() && out.updated.is_none());
    assert_eq!((s.band_bps, s.min_hedge_interval_slots), (110, 11));
    assert_eq!((s.vol_score_bps, s.last_vol_score_bps), (5000, 5000));
    assert_eq!(s.epoch, 2);
    assert!(out.epoch.oracle_degraded);
}

#[test]
fn realized_volatility_needs_enough_samples() {
    let mut s = priced_vault();
    s.vol_weight_realized_bps = 10_000;
    s.vol_weight_implied_bps = 0;
    for i in 0..32 {
        s.returns_ring[i] = if i % 2 == 0 { 10_000 } else { -10_000 };
    }
    s.nonzero_samples = 3;
    let out = update_epoch_and_policy(&mut s, &authority(), 100).unwrap();
    assert!(!out.epoch.realized_updated);
    assert_eq!(s.realized_vol_bps, 0);
    s.nonzero_samples = 32;
    let out = update_epoch_and_policy(&mut s, &authority(), 150).unwrap();
    assert!(out.epoch.realized_updated);
    assert_eq!((s.realized_vol_bps, s.vol_score_bps), (100, 100));
    s.vol_mode = VolMode::Mad;
    update_epoch_and_policy(&mut s, &authority(), 200).unwrap();
    assert_eq!(s.realized_vol_bps, 148);
}

#[test]
fn policy_stays_within_its_bounds_under_carry() {
    let mut s = priced_vault();
    let who = authority();
    s.band_bps = 1000;
    s.min_hedge_interval_slots = 100;
    update_implied_vol(&mut s, &who, 2, 10_000).unwrap();
    update_carry_inputs(&mut s, &who, 3, 50, 0, 0).unwrap();
    let out = update_epoch_and_policy(&mut s, &who, 100).unwrap();
    let intent = out.intent.unwrap();
    assert_eq!((intent.bias_band_bps, intent.target_band_bps), (200, 1000));
    assert_eq!(intent.target_interval_slots, 100);
    assert_eq!((s.band_bps, s.min_hedge_interval_slots), (1000, 100));
    s.band_bps = 100;
    s.min_hedge_interval_slots = 10;
    update_implied_vol(&mut s, &who, 101, 0).unwrap();
    update_carry_inputs(&mut s, &who, 102, 0, 50, 0).unwrap();
    let out = update_epoch_and_policy(&mut s, &who, 150).unwrap();
    let intent = out.intent.unwrap();
    assert_eq!((intent.bias_band_bps, intent.target_band_bps), (-200, 100));
    assert_eq!(intent.target_interval_slots, 10);
    assert_eq!((s.band_bps, s.min_hedge_interval_slots), (100, 10));
    s.max_interval_slots = u64::MAX;
    s.min_hedge_interval_slots = u64::MAX - 5;
    update_implied_vol(&mut s, &who, 151, 10_000).unwrap();
    update_carry_inputs(&mut s, &who, 152, 90, 0, 0).unwrap();
    let out = update_epoch_and_policy(&mut s, &who, 200).unwrap();
    assert_eq!(out.intent.unwrap().target_interval_slots, u64::MAX);
    assert_eq!(s.min_hedge_interval_slots, u64::MAX);
}

#[test]
fn net_asset_value_needs_a_valid_price() {
    let mut s = vault();
    assert_eq!(s.compute_nav_usd(), Err(ErrorCode::OracleNotReady));
    s.staking_accrued_usd = 5;
    assert_eq!(s.compute_nav_usd(), Err(ErrorCode::OracleNotReady));
    assert_eq!(s.staked_value_usd(), Err(ErrorCode::OracleNotReady));
    assert_eq!(s.reserve_value_usd(), Err(ErrorCode::OracleNotReady));
    let before = s;
    assert_eq!(
        update_epoch_and_policy(&mut s, &authority(), 100).err(),
        Some(ErrorCode::OracleNotReady)
    );
    assert_eq!(s, before);
    s.staked_sol = 100;
    s.reserve_sol = 10;
    s.oracle_price_fp = -1;
    assert_eq!(s.compute_nav_usd(), Err(ErrorCode::OracleNotReady));
    s.oracle_price_fp = 100_000_000;
    assert_eq!(s.staked_value_usd(), Ok(10_000));
    assert_eq!(s.reserve_value_usd(), Ok(1000));
    assert_eq!(s.unrealized_pnl_usd(), Ok(0));
    assert_eq!(s.compute_nav_usd(), Ok(11_005));
    s.oracle_ok = false;
    s.oracle_degraded = true;
    assert_eq!(s.compute_nav_usd(), Ok(11_005));
    s.staking_accrued_usd = -20_000;
    assert_eq!(s.compute_nav_usd(), Ok(-9000));
    s.staking_accrued_usd = i64::MAX;
    assert_eq!(s.compute_nav_usd(), Err(ErrorCode::MathOverflow));
    s.staked_sol = u64::MAX;
    s.oracle_price_fp = i64::MAX;
    s.staking_accrued_usd = 0;
    assert_eq!(s.staked_value_usd(), Err(ErrorCode::MathOverflow));
    assert_eq!(s.compute_nav_usd(), Err(ErrorCode::MathOverflow));
}

#[test]
fn the_report_needs_each_value_within_range() {
    let mut s = vault();
    s.oracle_price_fp = 1_000_000;
    s.staked_sol = 1u64 << 63;
    s.staking_accrued_usd = -1;
    assert_eq!(s.staked_value_usd(), Err(ErrorCode::MathOverflow));
    assert_eq!(s.compute_nav_usd(), Ok(i64::MAX));
    s.staking_accrued_usd = i64::MIN;
    assert_eq!(s.compute_nav_usd(), Ok(0));
    let before = s;
    assert_eq!(
        update_epoch_and_policy(&mut s, &authority(), 100).err(),
        Some(ErrorCode::MathOverflow)
    );
    assert_eq!(s, before);
    s.epoch = u64::MAX;
    s.staked_sol = 0;
    s.staking_accrued_usd = 0;
    assert_eq!(
        update_epoch_and_policy(&mut s, &authority(), 100).err(),
        Some(ErrorCode::MathOverflow)
    );
    s.epoch = 7;
    assert_eq!(update_epoch_and_policy(&mut s, &authority(), 100).unwrap().epoch.epoch, 8);
}

fn hedge_ready() -> VaultState {
    let mut s = vault();
    s.staked_sol = 100;
    s.reserve_sol = 10;
    s.oracle_ok = true;
    s.oracle_price_fp = 100_000_000;
    s.oracle_ema_price_fp = 103_000_000;
    s.last_hedge_ema_price_fp = 100_000_000;
    s.last_hedge_slot = 100;
    s.band_bps = 250;
    s
}

#[test]
fn drift_example_admits_or_refuses_the_request() {
    let mut s = hedge_ready();
    let out = request_hedge(&mut s, 110).unwrap();
    assert_eq!(out.requested.drift_bps, 300);
    assert_eq!(out.requested.reason_code, 3);
    assert_eq!(out.requested.target_hedge_notional_usd, -5000);
    assert_eq!(out.requested.delta_gap_usd, -5000);
    assert_eq!(out.requested.request_id, 1);
    assert_eq!(out.requested.ema_price_fp, 103_000_000);
    assert_eq!(out.requested.last_hedge_ema_price_fp, 103_000_000);
    assert!(out.missed.is_none());
    assert!(s.request_outstanding);
    assert_eq!((s.last_hedge_slot, s.last_hedge_request_slot, s.last_hedge_request_id), (110, 110, 1));
    assert_eq!(s.last_hedge_ema_price_fp, 103_000_000);

    let mut s = hedge_ready();
    s.band_bps = 350;
    let before = s;
    assert_eq!(request_hedge(&mut s, 110).err(), Some(ErrorCode::DriftNotMet));
    assert_eq!(s, before);
}

#[test]
fn requests_are_refused_in_order() {
    let mut s = hedge_ready();
    assert_eq!(request_hedge(&mut s, 105).err(), Some(ErrorCode::HedgeTooSoon));
    s.oracle_ema_price_fp = 0;
    assert_eq!(request_hedge(&mut s, 105).err(), Some(ErrorCode::OracleNotReady));
    s.paused = true;
    assert_eq!(request_hedge(&mut s, 105).err(), Some(ErrorCode::Paused));
    let mut s = hedge_ready();
    s.oracle_degraded = true;
    assert_eq!(request_hedge(&mut s, 110).err(), Some(ErrorCode::OracleDegradedHedgeBlocked));
    s.oracle_ema_price_fp = 125_000_000;
    let out = request_hedge(&mut s, 110).unwrap();
    assert_eq!(out.requested.drift_bps, 2500);
    assert!(out.requested.oracle_degraded);
    let mut s = hedge_ready();
    s.hedge_notional_usd = i64::MAX;
    assert_eq!(request_hedge(&mut s, 110).err(), Some(ErrorCode::MathOverflow));
    let mut s = hedge_ready();
    assert!(request_hedge(&mut s, 50).is_ok());
}

#[test]
fn sizing_falls_back_to_the_average_price() {
    let mut s = hedge_ready();
    s.oracle_ok = false;
    s.hedge_notional_usd = -1000;
    let out = request_hedge(&mut s, 110).unwrap();
    assert_eq!(out.requested.target_hedge_notional_usd, -5150);
    assert_eq!(out.requested.delta_gap_usd, -4150);
    assert_eq!(out.requested.hedge_notional_usd, -1000);
}

#[test]
fn a_request_that_timed_out_is_counted_as_missed() {
    let mut s = hedge_ready();
    request_hedge(&mut s, 110).unwrap();
    s.oracle_ema_price_fp = 110_000_000;
    let out = request_hedge(&mut s, 130).unwrap();
    assert!(out.missed.is_none());
    assert_eq!((s.missed_confirms, s.last_hedge_request_id), (0, 2));
    s.oracle_ema_price_fp = 120_000_000;
    let out = request_hedge(&mut s, 151).unwrap();
    let missed = out.missed.unwrap();
    assert_eq!((missed.request_id, missed.since_request_slots, missed.missed_confirms), (2, 21, 1));
    assert_eq!(out.requested.request_id, 3);
    assert_eq!(s.missed_confirms, 1);
    assert!(s.request_outstanding);
}

#[test]
fn a_confirmation_settles_the_last_request() {
    let mut s = hedge_ready();
    let who = authority();
    request_hedge(&mut s, 110).unwrap();
    let done = confirm_hedge(&mut s, &who, 112, 1, -5000, 101_000_000).unwrap();
    assert_eq!(done.request_id, 1);
    assert_eq!(done.hedge_notional_usd, -5000);
    assert_eq!(done.ref_price_fp, 100_000_000);
    assert_eq!((done.slippage_bps, done.avg_fill_slippage_bps, done.hedge_fill_count), (100, 20, 1));
    assert_eq!(s.hedge_notional_usd, -5000);
    assert_eq!((s.last_fill_slot, s.hedge_fill_count, s.avg_fill_slippage_bps), (112, 1, 20));
    assert!(!s.request_outstanding);
    assert_eq!(
        confirm_hedge(&mut s, &who, 113, 1, -5000, 101_000_000).err(),
        Some(ErrorCode::NoOutstandingRequest)
    );
}

#[test]
fn a_wrong_request_id_is_refused() {
    let mut s = hedge_ready();
    let who = authority();
    request_hedge(&mut s, 110).unwrap();
    let before = s;
    for id in [0u64, 2, 7, u64::MAX] {
        assert_eq!(
            confirm_hedge(&mut s, &who, 112, id, -5000, 101_000_000).err(),
            Some(ErrorCode::WrongRequestId)
        );
    }
    assert_eq!(s, before);
    assert!(s.request_outstanding);
}

#[test]
fn confirmations_are_refused_in_order() {
    let mut s = hedge_ready();
    let who = authority();
    request_hedge(&mut s, 110).unwrap();
    let before = s;
    assert_eq!(
        confirm_hedge(&mut s, &stranger(), 112, 1, -5000, 101_000_000).err(),
        Some(ErrorCode::Unauthorized)
    );
    assert_eq!(
        confirm_hedge(&mut s, &who, 112, 1, -5000, 0).err(),
        Some(ErrorCode::InvalidParams)
    );
    assert_eq!(
        confirm_hedge(&mut s, &who, 112, 1, -5000, 10_000_000_000_001).err(),
        Some(ErrorCode::InvalidParams)
    );
    assert_eq!(
        confirm_hedge(&mut s, &who, 112, 1, -10_000_001, 101_000_000).err(),
        Some(ErrorCode::CapExceeded)
    );
    assert_eq!(
        confirm_hedge(&mut s, &who, 112, 1, i64::MIN, 101_000_000).err(),
        Some(ErrorCode::CapExceeded)
    );
    assert_eq!(
        confirm_hedge(&mut s, &who, 112, 1, -20_001, 101_000_000).err(),
        Some(ErrorCode::LeverageExceeded)
    );
    assert_eq!(s, before);
    assert!(confirm_hedge(&mut s, &who, 112, 1, 20_000, 101_000_000).is_ok());

    let mut s = hedge_ready();
    request_hedge(&mut s, 110).unwrap();
    s.staked_sol = 0;
    assert_eq!(
        confirm_hedge(&mut s, &who, 112, 1, -1, 101_000_000).err(),
        Some(ErrorCode::LeverageExceeded)
    );
    s.oracle_ok = false;
    s.oracle_ema_price_fp = 0;
    let before = s;
    assert_eq!(
        confirm_hedge(&mut s, &who, 112, 1, 0, 101_000_000).err(),
        Some(ErrorCode::OracleNotReady)
    );
    assert_eq!(s, before);
    s.paused = true;
    assert_eq!(
        confirm_hedge(&mut s, &who, 112, 1, 0, 101_000_000).err(),
        Some(ErrorCode::Paused)
    );
}

#[test]
fn hedge_guardrails() {
    let mut s = hedge_ready();
    assert_eq!(s.set_hedge_notional_checked(-20_000), Ok(()));
    assert_eq!(s.hedge_notional_usd, -20_000);
    assert_eq!(s.set_hedge_notional_checked(20_001), Err(ErrorCode::LeverageExceeded));
    assert_eq!(s.hedge_notional_usd, -20_000);
    assert_eq!(s.enforce_leverage_guardrail(), Ok(()));
    s.max_hedge_per_sol_usd_fp = 0;
    assert_eq!(s.enforce_leverage_guardrail(), Err(ErrorCode::InvalidParams));
    s.staked_sol = 0;
    assert_eq!(s.enforce_leverage_guardrail(), Err(ErrorCode::LeverageExceeded));
    s.hedge_notional_usd = 0;
    assert_eq!(s.enforce_leverage_guardrail(), Ok(()));
    s.staked_sol = 1001;
    s.reserve_sol = 100;
    assert_eq!(s.enforce_reserve_ratio(), Ok(()));
    s.staked_sol = 1010;
    assert_eq!(s.enforce_reserve_ratio(), Err(ErrorCode::ReserveTooLow));
    assert_eq!(s.require_not_paused(), Ok(()));
    s.paused = true;
    assert_eq!(s.require_not_paused(), Err(ErrorCode::Paused));
}

#[test]
fn implied_volatility_is_at_most_all() {
    let mut s = vault();
    let before = s;
    assert_eq!(
        update_implied_vol(&mut s, &authority(), 1, 10_001).err(),
        Some(ErrorCode::VolOutOfRange)
    );
    assert_eq!(
        update_implied_vol(&mut s, &stranger(), 1, 100).err(),
        Some(ErrorCode::Unauthorized)
    );
    assert_eq!(s, before);
    let e = update_implied_vol(&mut s, &authority(), 1, 10_000).unwrap();
    assert_eq!((e.epoch, e.slot, e.implied_vol_bps), (0, 1, 10_000));
    assert_eq!(s.implied_vol_bps, 10_000);
}

use anchor_lang::solana_program::hash::hashv;
use vol_weighted_staking::admin::{
    accept_authority, add_keeper, remove_keeper, set_emergency_withdraw_enabled, set_keeper_admin,
    set_paused, set_pending_authority,
};
use vol_weighted_staking::configure::{
    set_confirm_config, set_hedge_sizing, set_keeper_controls, set_oracle_config,
    set_policy_bounds, set_policy_stability, set_risk_caps, set_vol_model,
};
use vol_weighted_staking::{
    deposit_keeper_bond, initialize_vault, update_epoch_and_policy, update_implied_vol, Address,
    ErrorCode, InitializeParams, OracleFeedChoice, VaultState, VolMode,
};

fn authority() -> Address {
    Address::new([1u8; 32])
}

fn key(n: u8) -> Address {
    Address::new([n; 32])
}

fn params() -> InitializeParams {
    InitializeParams {
        min_band_bps: 100,
        max_band_bps: 1000,
        min_interval_slots: 10,
        max_interval_slots: 100,
        vol_weight_realized_bps: 0,
        vol_weight_implied_bps: 10_000,
        min_samples: 4,
        min_return_spacing_slots: 5,
        policy_update_min_slots: 50,
        max_policy_slew_bps: 1000,
        hysteresis_bps: 100,
        vol_mode: 0,
        ewma_alpha_bps: 2000,
        max_staked_sol: 1_000_000,
        max_abs_hedge_notional_usd: 10_000_000,
        max_hedge_per_sol_usd_fp: 200_000_000,
        min_reserve_bps: 1000,
        oracle_feed_choice: 3,
        max_price_age_seconds: 60,
        max_confidence_bps: 100,
        max_price_jump_bps: 500,
        target_delta_bps: 5000,
        lst_beta_fp: 1_000_000,
        max_confirm_delay_slots: 20,
        extreme_drift_bps: 2000,
        max_updates_per_epoch: 3,
        keeper_bond_required_lamports: 0,
    }
}

fn vault() -> VaultState {
    initialize_vault(authority(), 255, params()).unwrap().0
}

fn priced_vault() -> VaultState {
    let mut s = vault();
    s.oracle_price_fp = 100_000_000;
    s.oracle_ema_price_fp = 100_000_000;
    s.oracle_ok = true;
    s
}

fn layout(s: &VaultState) -> Vec<u8> {
    let mut b: Vec<u8> = Vec::new();
    b.extend_from_slice(&s.authority.bytes);
    b.extend_from_slice(&s.keeper_admin.bytes);
    b.extend_from_slice(&s.min_band_bps.to_le_bytes());
    b.extend_from_slice(&s.max_band_bps.to_le_bytes());
    b.extend_from_slice(&s.min_interval_slots.to_le_bytes());
    b.extend_from_slice(&s.max_interval_slots.to_le_bytes());
    b.extend_from_slice(&s.vol_weight_realized_bps.to_le_bytes());
    b.extend_from_slice(&s.vol_weight_implied_bps.to_le_bytes());
    b.push(s.vol_mode.code());
    b.extend_from_slice(&s.ewma_alpha_bps.to_le_bytes());
    b.extend_from_slice(&s.min_samples.to_le_bytes());
    b.extend_from_slice(&s.min_return_spacing_slots.to_le_bytes());
    b.extend_from_slice(&s.policy_update_min_slots.to_le_bytes());
    b.extend_from_slice(&s.max_policy_slew_bps.to_le_bytes());
    b.extend_from_slice(&s.hysteresis_bps.to_le_bytes());
    b.push(s.oracle_feed_choice.code());
    b.extend_from_slice(&s.max_price_age_seconds.to_le_bytes());
    b.extend_from_slice(&s.max_confidence_bps.to_le_bytes());
    b.extend_from_slice(&s.max_price_jump_bps.to_le_bytes());
    b.extend_from_slice(&s.target_delta_bps.to_le_bytes());
    b.extend_from_slice(&s.lst_beta_fp.to_le_bytes());
    b.extend_from_slice(&s.max_staked_sol.to_le_bytes());
    b.extend_from_slice(&s.max_abs_hedge_notional_usd.to_le_bytes());
    b.extend_from_slice(&s.max_hedge_per_sol_usd_fp.to_le_bytes());
    b.extend_from_slice(&s.min_reserve_bps.to_le_bytes());
    b.extend_from_slice(&s.max_confirm_delay_slots.to_le_bytes());
    b.extend_from_slice(&s.extreme_drift_bps.to_le_bytes());
    b.extend_from_slice(&s.max_updates_per_epoch.to_le_bytes());
    b.extend_from_slice(&s.keeper_bond_required_lamports.to_le_bytes());
    b
}

#[test]
fn the_digest_is_sha256_over_tag_and_layout() {
    let s = vault();
    assert_eq!(
        s.config_hash,
        [
            38, 82, 226, 200, 199, 148, 243, 172, 101, 248, 184, 1, 217, 60, 73, 65, 63, 6, 236,
            237, 197, 9, 7, 76, 172, 94, 108, 35, 132, 128, 111, 89
        ]
    );
    let bytes = s.config_bytes();
    assert_eq!(bytes.len(), 181);
    assert_eq!(bytes, layout(&s));
    assert_ne!(&s.config_hash[..], &bytes[..32]);
    assert_eq!(s.config_hash, hashv(&[b"vwsa-config-v1", &bytes]).to_bytes());
}

#[test]
fn the_layout_holds_signed_values_in_twos_complement() {
    let mut s = vault();
    s.lst_beta_fp = -2;
    s.max_abs_hedge_notional_usd = i64::MIN;
    s.max_hedge_per_sol_usd_fp = i64::MAX;
    s.vol_mode = VolMode::Mad;
    s.oracle_feed_choice = OracleFeedChoice::SolUsdc;
    s.keeper_bond_required_lamports = u64::MAX;
    assert_eq!(s.config_bytes(), layout(&s));
    let before = s.config_hash;
    s.recompute_config_hash();
    assert_ne!(s.config_hash, before);
    assert_eq!(s.config_hash, hashv(&[b"vwsa-config-v1", &layout(&s)]).to_bytes());
}

#[test]
fn a_change_bumps_version_and_digest() {
    let mut s = vault();
    let first = s.config_hash;
    s.min_band_bps = 101;
    s.bump_config_version_and_hash();
    assert_eq!(s.config_version, 2);
    assert_ne!(s.config_hash, first);
    s.config_version = u64::MAX;
    s.bump_config_version_and_hash();
    assert_eq!(s.config_version, u64::MAX);
}

#[test]
fn keepers_take_rows_in_order() {
    let mut s = vault();
    assert!(!s.is_keeper(&key(2)));
    assert_eq!(s.keeper_index(&key(2)), None);
    assert_eq!(s.add_keeper(key(2)), Ok(()));
    assert_eq!(s.add_keeper(key(3)), Ok(()));
    assert_eq!(s.add_keeper(key(4)), Ok(()));
    assert_eq!(s.keeper_count, 3);
    assert_eq!(s.keeper_index(&key(2)), Some(0));
    assert_eq!(s.keeper_index(&key(4)), Some(2));
    assert!(s.is_keeper(&key(3)));
    let before = s;
    assert_eq!(s.add_keeper(key(3)), Ok(()));
    assert_eq!(s, before);
    for n in 5..10 {
        assert_eq!(s.add_keeper(key(n)), Ok(()));
    }
    assert_eq!(s.keeper_count, 8);
    let full = s;
    assert_eq!(s.add_keeper(key(50)), Err(ErrorCode::InvalidParams));
    assert_eq!(s, full);
    assert_eq!(s.add_keeper(key(9)), Ok(()));
}

#[test]
fn a_stale_row_beyond_the_count_is_no_keeper() {
    let mut s = vault();
    s.add_keeper(key(2)).unwrap();
    s.keepers[3] = key(7);
    assert!(!s.is_keeper(&key(7)));
    assert!(!s.is_keeper(&Address::none()));
    s.keeper_count = 200;
    assert_eq!(s.keeper_index(&key(7)), Some(3));
    assert_eq!(s.add_keeper(key(8)), Err(ErrorCode::InvalidParams));
}

#[test]
fn removing_a_keeper_moves_the_last_row() {
    let mut s = vault();
    s.add_keeper(key(2)).unwrap();
    s.add_keeper(key(3)).unwrap();
    s.add_keeper(key(4)).unwrap();
    s.keeper_heartbeat_slot = [20, 30, 40, 0, 0, 0, 0, 0];
    s.keeper_miss_count = [2, 3, 4, 0, 0, 0, 0, 0];
    s.keeper_updates_this_epoch = [22, 33, 44, 0, 0, 0, 0, 0];
    s.keeper_bond_deposited_lamports = [200, 300, 400, 0, 0, 0, 0, 0];
    let before = s;
    assert_eq!(s.remove_keeper(key(9)), Ok(()));
    assert_eq!(s, before);
    assert_eq!(s.remove_keeper(key(2)), Ok(()));
    assert_eq!(s.keeper_count, 2);
    assert_eq!(s.keepers[0], key(4));
    assert_eq!(s.keepers[1], key(3));
    assert_eq!(s.keepers[2], Address::none());
    assert_eq!(s.keeper_heartbeat_slot, [40, 30, 0, 0, 0, 0, 0, 0]);
    assert_eq!(s.keeper_miss_count, [4, 3, 0, 0, 0, 0, 0, 0]);
    assert_eq!(s.keeper_updates_this_epoch, [44, 33, 0, 0, 0, 0, 0, 0]);
    assert_eq!(s.keeper_bond_deposited_lamports, [400, 300, 0, 0, 0, 0, 0, 0]);
    assert_eq!(s.remove_keeper(key(3)), Ok(()));
    assert_eq!(s.keepers[0], key(4));
    assert_eq!(s.keepers[1], Address::none());
    assert_eq!(s.remove_keeper(key(4)), Ok(()));
    assert_eq!(s.keeper_count, 0);
    assert_eq!(s.remove_keeper(key(4)), Ok(()));
}

#[test]
fn feeders_are_keepers_admin_and_authority() {
    let mut s = vault();
    s.keeper_admin = key(5);
    s.add_keeper(key(2)).unwrap();
    assert_eq!(s.require_keeper_feeder(&key(2)), Ok(()));
    assert_eq!(s.require_keeper_feeder(&key(5)), Ok(()));
    assert_eq!(s.require_keeper_feeder(&authority()), Ok(()));
    assert_eq!(s.require_keeper_feeder(&key(3)), Err(ErrorCode::Unauthorized));
}

#[test]
fn keepers_are_rate_limited_per_epoch() {
    let mut s = priced_vault();
    s.add_keeper(key(2)).unwrap();
    let k = key(2);
    for slot in 1..4 {
        update_implied_vol(&mut s, &k, slot, 1000).unwrap();
    }
    assert_eq!(s.keeper_updates_this_epoch[0], 3);
    assert_eq!(s.keeper_heartbeat_slot[0], 3);
    let before = s;
    assert_eq!(update_implied_vol(&mut s, &k, 4, 1000).err(), Some(ErrorCode::KeeperRateLimited));
    assert_eq!(s.require_keeper_rate_limit_ok(&k), Err(ErrorCode::KeeperRateLimited));
    assert_eq!(s, before);
    assert_eq!(s.require_keeper_rate_limit_ok(&authority()), Ok(()));
    update_epoch_and_policy(&mut s, &authority(), 100).unwrap();
    assert_eq!(s.keeper_updates_this_epoch, [0u16; 8]);
    assert!(update_implied_vol(&mut s, &k, 101, 1000).is_ok());
    s.keeper_updates_this_epoch[0] = u16::MAX;
    s.max_updates_per_epoch = u16::MAX;
    assert_eq!(s.require_keeper_rate_limit_ok(&k), Err(ErrorCode::KeeperRateLimited));
    s.keeper_updates_this_epoch[0] = u16::MAX - 1;
    s.bump_keeper_heartbeat_and_updates(&k, 500).unwrap();
    s.bump_keeper_heartbeat_and_updates(&k, 501).unwrap();
    assert_eq!(s.keeper_updates_this_epoch[0], u16::MAX);
    assert_eq!(s.keeper_heartbeat_slot[0], 501);
    let before = s;
    s.bump_keeper_heartbeat_and_updates(&key(77), 600).unwrap();
    assert_eq!(s, before);
}

#[test]
fn keepers_need_their_bond() {
    let mut s = vault();
    s.add_keeper(key(2)).unwrap();
    let k = key(2);
    set_keeper_controls(&mut s, 1, 3, 500).unwrap();
    assert_eq!(
        update_implied_vol(&mut s, &k, 2, 1000).err(),
        Some(ErrorCode::KeeperBondInsufficient)
    );
    assert!(update_implied_vol(&mut s, &authority(), 2, 1000).is_ok());
    let e = deposit_keeper_bond(&mut s, &k, 3, 300).unwrap();
    assert_eq!((e.keeper, e.deposited_lamports, e.required_lamports), (k, 300, 500));
    assert_eq!(s.require_keeper_rate_limit_ok(&k), Err(ErrorCode::KeeperBondInsufficient));
    let e = deposit_keeper_bond(&mut s, &k, 4, 200).unwrap();
    assert_eq!(e.deposited_lamports, 500);
    assert!(update_implied_vol(&mut s, &k, 5, 1000).is_ok());
    let before = s;
    assert_eq!(deposit_keeper_bond(&mut s, &k, 6, 0).err(), Some(ErrorCode::InvalidParams));
    assert_eq!(
        deposit_keeper_bond(&mut s, &authority(), 6, 5).err(),
        Some(ErrorCode::Unauthorized)
    );
    assert_eq!(deposit_keeper_bond(&mut s, &key(8), 6, 5).err(), Some(ErrorCode::Unauthorized));
    assert_eq!(deposit_keeper_bond(&mut s, &k, 6, u64::MAX).err(), Some(ErrorCode::MathOverflow));
    assert_eq!(s, before);
    s.paused = true;
    assert_eq!(deposit_keeper_bond(&mut s, &k, 6, 5).err(), Some(ErrorCode::Paused));
}

#[test]
fn switches_bump_the_version() {
    let mut s = vault();
    let digest = s.config_hash;
    let e = set_paused(&mut s, 9, true).unwrap();
    assert!(s.paused);
    assert_eq!((e.epoch, e.slot, e.paused, e.config_version), (0, 9, true, 2));
    assert_eq!(e.config_hash, digest);
    let e = set_emergency_withdraw_enabled(&mut s, 10, true).unwrap();
    assert!(s.emergency_withdraw_enabled && e.emergency_withdraw_enabled);
    assert_eq!(s.config_version, 3);
    set_paused(&mut s, 11, false).unwrap();
    assert!(!s.paused);
}

#[test]
fn authority_changes_hands_in_two_steps() {
    let mut s = vault();
    let before = s;
    assert_eq!(
        set_pending_authority(&mut s, 1, Address::none()).err(),
        Some(ErrorCode::InvalidParams)
    );
    assert_eq!(accept_authority(&mut s, &key(2), 1).err(), Some(ErrorCode::InvalidParams));
    assert_eq!(s, before);
    let e = set_pending_authority(&mut s, 2, key(2)).unwrap();
    assert_eq!((e.pending_authority, e.config_version), (key(2), 2));
    assert_eq!(accept_authority(&mut s, &key(3), 3).err(), Some(ErrorCode::Unauthorized));
    let digest = s.config_hash;
    let e = accept_authority(&mut s, &key(2), 4).unwrap();
    assert_eq!(e.old_authority, authority());
    assert_eq!((e.new_authority, e.new_keeper_admin), (key(2), key(2)));
    assert_eq!((s.authority, s.keeper_admin), (key(2), key(2)));
    assert_eq!(s.pending_authority, Address::none());
    assert_eq!(s.config_version, 3);
    assert_ne!(s.config_hash, digest);
    assert_eq!(e.config_hash, s.config_hash);
    assert_eq!(set_keeper_admin(&mut s, 5, Address::none()).err(), Some(ErrorCode::InvalidParams));
    let e = set_keeper_admin(&mut s, 5, key(6)).unwrap();
    assert_eq!(e.keeper_admin, key(6));
    assert_eq!(s.keeper_admin, key(6));
}

#[test]
fn the_keeper_table_is_administered() {
    let mut s = vault();
    assert_eq!(add_keeper(&mut s, 1, Address::none()).err(), Some(ErrorCode::InvalidParams));
    assert_eq!(remove_keeper(&mut s, 1, Address::none()).err(), Some(ErrorCode::InvalidParams));
    let e = add_keeper(&mut s, 2, key(2)).unwrap();
    assert_eq!((e.keeper, e.is_added, e.keeper_count, e.config_version), (key(2), true, 1, 2));
    let e = add_keeper(&mut s, 3, key(2)).unwrap();
    assert_eq!((e.keeper_count, e.config_version), (1, 3));
    let e = remove_keeper(&mut s, 4, key(2)).unwrap();
    assert_eq!((e.keeper, e.is_added, e.keeper_count, e.config_version), (key(2), false, 0, 4));
    for n in 2..10 {
        add_keeper(&mut s, 5, key(n)).unwrap();
    }
    let before = s;
    assert_eq!(add_keeper(&mut s, 6, key(60)).err(), Some(ErrorCode::InvalidParams));
    assert_eq!(s, before);
}

#[test]
fn new_bounds_pull_the_policy() {
    let mut s = priced_vault();
    update_implied_vol(&mut s, &authority(), 1, 5000).unwrap();
    update_epoch_and_policy(&mut s, &authority(), 100).unwrap();
    let before = s;
    assert_eq!(
        set_policy_bounds(&mut s, 101, 2000, 200, 20, 200).err(),
        Some(ErrorCode::InvalidParams)
    );
    assert_eq!(
        set_policy_bounds(&mut s, 101, 200, 10_001, 20, 200).err(),
        Some(ErrorCode::InvalidParams)
    );
    assert_eq!(
        set_policy_bounds(&mut s, 101, 200, 2000, 201, 200).err(),
        Some(ErrorCode::InvalidParams)
    );
    assert_eq!(s, before);
    let e = set_policy_bounds(&mut s, 101, 200, 2000, 20, 200).unwrap();
    assert_eq!((e.min_band_bps, e.max_band_bps), (200, 2000));
    assert_eq!((s.min_band_bps, s.max_band_bps), (200, 2000));
    assert_eq!((s.min_interval_slots, s.max_interval_slots), (20, 200));
    assert_eq!((s.band_bps, s.min_hedge_interval_slots), (121, 12));
    assert_eq!(s.config_version, 2);
    s.vol_score_bps = 65_535;
    assert_eq!(
        set_policy_bounds(&mut s, 102, 0, 10_000, 0, u64::MAX).err(),
        Some(ErrorCode::MathOverflow)
    );
}

#[test]
fn knobs_are_validated_and_set() {
    let mut s = vault();
    let before = s;
    assert_eq!(set_policy_stability(&mut s, 1, 0, 1000, 100, 2000).err(), Some(ErrorCode::InvalidParams));
    assert_eq!(set_policy_stability(&mut s, 1, 5, 0, 100, 2000).err(), Some(ErrorCode::InvalidParams));
    assert_eq!(set_policy_stability(&mut s, 1, 5, 10_001, 100, 2000).err(), Some(ErrorCode::InvalidParams));
    assert_eq!(set_policy_stability(&mut s, 1, 5, 1000, 10_001, 2000).err(), Some(ErrorCode::InvalidParams));
    assert_eq!(set_policy_stability(&mut s, 1, 5, 1000, 100, 10_001).err(), Some(ErrorCode::InvalidParams));
    assert_eq!(set_vol_model(&mut s, 1, 3, 2000, 4, 5).err(), Some(ErrorCode::InvalidParams));
    assert_eq!(set_vol_model(&mut s, 1, 1, 0, 4, 5).err(), Some(ErrorCode::InvalidParams));
    assert_eq!(set_vol_model(&mut s, 1, 2, 0, 0, 5).err(), Some(ErrorCode::InvalidParams));
    assert_eq!(set_vol_model(&mut s, 1, 2, 0, 33, 5).err(), Some(ErrorCode::InvalidParams));
    assert_eq!(set_vol_model(&mut s, 1, 2, 0, 4, 0).err(), Some(ErrorCode::InvalidParams));
    assert_eq!(set_oracle_config(&mut s, 1, 0, 60, 100, 500).err(), Some(ErrorCode::InvalidParams));
    assert_eq!(set_oracle_config(&mut s, 1, 1, 0, 100, 500).err(), Some(ErrorCode::InvalidParams));
    assert_eq!(set_oracle_config(&mut s, 1, 1, 60, 10_001, 500).err(), Some(ErrorCode::InvalidParams));
    assert_eq!(set_oracle_config(&mut s, 1, 1, 60, 100, 10_001).err(), Some(ErrorCode::InvalidParams));
    assert_eq!(set_hedge_sizing(&mut s, 1, 10_001, 1).err(), Some(ErrorCode::InvalidParams));
    assert_eq!(set_hedge_sizing(&mut s, 1, 10, 0).err(), Some(ErrorCode::InvalidParams));
    assert_eq!(set_keeper_controls(&mut s, 1, 0, 5).err(), Some(ErrorCode::InvalidParams));
    assert_eq!(set_confirm_config(&mut s, 1, 0).err(), Some(ErrorCode::InvalidParams));
    assert_eq!(s, before);

    let e = set_policy_stability(&mut s, 2, 7, 500, 50, 3000).unwrap();
    assert_eq!((e.policy_update_min_slots, e.max_policy_slew_bps), (7, 500));
    assert_eq!((s.policy_update_min_slots, s.max_policy_slew_bps), (7, 500));
    assert_eq!((s.hysteresis_bps, s.extreme_drift_bps), (50, 3000));
    let e = set_vol_model(&mut s, 3, 1, 2500, 8, 9).unwrap();
    assert_eq!((e.vol_mode, e.ewma_alpha_bps, e.min_samples), (1, 2500, 8));
    assert_eq!(s.vol_mode, VolMode::Ewma);
    assert_eq!((s.ewma_alpha_bps, s.min_samples, s.min_return_spacing_slots), (2500, 8, 9));
    let e = set_oracle_config(&mut s, 4, 2, 30, 200, 700).unwrap();
    assert_eq!(e.oracle_feed_choice, 2);
    assert_eq!(s.oracle_feed_choice, OracleFeedChoice::SolUsdc);
    assert_eq!((s.max_price_age_seconds, s.max_confidence_bps, s.max_price_jump_bps), (30, 200, 700));
    let e = set_hedge_sizing(&mut s, 5, 7500, 900_000).unwrap();
    assert_eq!((e.target_delta_bps, e.beta_fp), (7500, 900_000));
    assert_eq!((s.target_delta_bps, s.lst_beta_fp), (7500, 900_000));
    let e = set_keeper_controls(&mut s, 6, 9, 55).unwrap();
    assert_eq!((e.max_updates_per_epoch, e.keeper_bond_required_lamports), (9, 55));
    assert_eq!((s.max_updates_per_epoch, s.keeper_bond_required_lamports), (9, 55));
    let e = set_confirm_config(&mut s, 7, 44).unwrap();
    assert_eq!((e.max_confirm_delay_slots, e.config_version), (44, 7));
    assert_eq!(s.max_confirm_delay_slots, 44);
    assert_eq!(e.config_hash, s.config_hash);
}

#[test]
fn risk_caps_must_admit_the_position() {
    let mut s = vault();
    s.staked_sol = 1000;
    s.reserve_sol = 100;
    s.hedge_notional_usd = -50_000;
    let before = s;
    assert_eq!(set_risk_caps(&mut s, 1, 0, 1, 1, 0).err(), Some(ErrorCode::InvalidParams));
    assert_eq!(set_risk_caps(&mut s, 1, 1, 0, 1, 0).err(), Some(ErrorCode::InvalidParams));
    assert_eq!(set_risk_caps(&mut s, 1, 1, 1, 0, 0).err(), Some(ErrorCode::InvalidParams));
    assert_eq!(set_risk_caps(&mut s, 1, 1, 1, 1, 10_001).err(), Some(ErrorCode::InvalidParams));
    assert_eq!(
        set_risk_caps(&mut s, 1, 999, 10_000_000, 200_000_000, 1000).err(),
        Some(ErrorCode::CapExceeded)
    );
    assert_eq!(
        set_risk_caps(&mut s, 1, 1000, 49_999, 200_000_000, 1000).err(),
        Some(ErrorCode::CapExceeded)
    );
    assert_eq!(
        set_risk_caps(&mut s, 1, 1000, 50_000, 49_999_999, 1000).err(),
        Some(ErrorCode::LeverageExceeded)
    );
    assert_eq!(
        set_risk_caps(&mut s, 1, 1000, 50_000, 50_000_000, 1010).err(),
        Some(ErrorCode::ReserveTooLow)
    );
    assert_eq!(s, before);
    let e = set_risk_caps(&mut s, 1, 1000, 50_000, 50_000_000, 1000).unwrap();
    assert_eq!((e.max_staked_sol, e.max_abs_hedge_notional_usd), (1000, 50_000));
    assert_eq!((s.max_hedge_per_sol_usd_fp, s.min_reserve_bps, s.config_version), (50_000_000, 1000, 2));
    s.hedge_notional_usd = i64::MIN;
    assert_eq!(
        set_risk_caps(&mut s, 1, 1000, i64::MAX, 50_000_000, 1000).err(),
        Some(ErrorCode::CapExceeded)
    );
}

//! Making a vault from its parameters.

use vstd::prelude::*;
use vstd::array::spec_array_fill_for_copy_type;
use crate::errors::ErrorCode;
use crate::events::VaultInitialized;
use crate::keys::Address;
use crate::oracle::OracleFeedChoice;
use crate::return_series::lemma_count_nonzero_of_zeros;
use crate::state::{InitializeParams, VaultState};
use crate::volatility::VolMode;

verus! {

impl InitializeParams {
    /// Whether the parameters describe a vault: bounds in order, ratios at
    /// most 100%, weights that sum to 100%, positive limits and known modes.
    pub open spec fn valid(&self) -> bool {
        &&& self.min_band_bps <= self.max_band_bps
        &&& self.max_band_bps <= 10000
        &&& self.min_interval_slots <= self.max_interval_slots
        &&& self.vol_weight_realized_bps <= 10000
        &&& self.vol_weight_implied_bps <= 10000
        &&& self.vol_weight_realized_bps + self.vol_weight_implied_bps == 10000
        &&& 0 < self.min_samples <= 32
        &&& self.min_return_spacing_slots > 0
        &&& self.policy_update_min_slots > 0
        &&& 0 < self.max_policy_slew_bps <= 10000
        &&& self.hysteresis_bps <= 10000
        &&& self.max_staked_sol > 0
        &&& self.max_abs_hedge_notional_usd > 0
        &&& self.max_hedge_per_sol_usd_fp > 0
        &&& self.min_reserve_bps <= 10000
        &&& VolMode::spec_from_code(self.vol_mode) is Some
        &&& self.vol_mode == 1 ==> 0 < self.ewma_alpha_bps <= 10000
        &&& self.max_price_age_seconds > 0
        &&& self.max_confidence_bps <= 10000
        &&& self.max_price_jump_bps <= 10000
        &&& OracleFeedChoice::spec_from_code(self.oracle_feed_choice) is Some
        &&& self.target_delta_bps <= 10000
        &&& self.lst_beta_fp > 0
        &&& self.max_confirm_delay_slots > 0
        &&& self.max_updates_per_epoch > 0
    }

    /// Checks the parameters.
    pub fn validate(&self) -> (r: Result<(VolMode, OracleFeedChoice), ErrorCode>)
        ensures
            self.valid() ==> r == Ok::<(VolMode, OracleFeedChoice), ErrorCode>(
                (
                    VolMode::spec_from_code(self.vol_mode)->Some_0,
                    OracleFeedChoice::spec_from_code(self.oracle_feed_choice)->Some_0,
                ),
            ),
            !self.valid() ==> r == Err::<(VolMode, OracleFeedChoice), ErrorCode>(
                ErrorCode::InvalidParams,
            ),
    {
        if self.min_band_bps > self.max_band_bps || self.max_band_bps > 10_000
            || self.min_interval_slots > self.max_interval_slots {
            return Err(ErrorCode::InvalidParams);
        }
        if self.vol_weight_realized_bps > 10_000 || self.vol_weight_implied_bps > 10_000 || (
        self.vol_weight_realized_bps as u32) + (self.vol_weight_implied_bps as u32) != 10_000 {
            return Err(ErrorCode::InvalidParams);
        }
        if self.min_samples == 0 || self.min_samples > 32 || self.min_return_spacing_slots == 0
            || self.policy_update_min_slots == 0 {
            return Err(ErrorCode::InvalidParams);
        }
        if self.max_policy_slew_bps == 0 || self.max_policy_slew_bps > 10_000 || self.hysteresis_bps
            > 10_000 {
            return Err(ErrorCode::InvalidParams);
        }
        if self.max_staked_sol == 0 || self.max_abs_hedge_notional_usd <= 0
            || self.max_hedge_per_sol_usd_fp <= 0 || self.min_reserve_bps > 10_000 {
            return Err(ErrorCode::InvalidParams);
        }
        let mode = match VolMode::from_code(self.vol_mode) {
            Some(m) => m,
            None => {
                return Err(ErrorCode::InvalidParams);
            },
        };
        if self.vol_mode == 1 && (self.ewma_alpha_bps == 0 || self.ewma_alpha_bps > 10_000) {
            return Err(ErrorCode::InvalidParams);
        }
        if self.max_price_age_seconds == 0 || self.max_confidence_bps > 10_000
            || self.max_price_jump_bps > 10_000 {
            return Err(ErrorCode::InvalidParams);
        }
        let choice = match OracleFeedChoice::from_code(self.oracle_feed_choice) {
            Some(c) => c,
            None => {
                return Err(ErrorCode::InvalidParams);
            },
        };
        if self.target_delta_bps > 10_000 || self.lst_beta_fp <= 0 || self.max_confirm_delay_slots
            == 0 || self.max_updates_per_epoch == 0 {
            return Err(ErrorCode::InvalidParams);
        }
        Ok((mode, choice))
    }
}

/// The vault that valid parameters describe, before its configuration is
/// hashed: no exposure, an empty return series, no oracle price, no keeper,
/// and the policy at its lower bounds.
pub open spec fn blank_vault(authority: Address, vault_bump: u8, p: InitializeParams) -> VaultState {
    VaultState {
        authority,
        pending_authority: Address::spec_none(),
        keeper_admin: authority,
        vault_bump,
        config_version: 1,
        config_hash: spec_array_fill_for_copy_type::<u8, 32>(0u8),
        epoch: 0,
        last_policy_update_slot: 0,
        staked_sol: 0,
        reserve_sol: 0,
        hedge_notional_usd: 0,
        max_staked_sol: p.max_staked_sol,
        max_abs_hedge_notional_usd: p.max_abs_hedge_notional_usd,
        max_hedge_per_sol_usd_fp: p.max_hedge_per_sol_usd_fp,
        min_reserve_bps: p.min_reserve_bps,
        returns_ring: spec_array_fill_for_copy_type::<i32, 32>(0i32),
        returns_idx: 0,
        nonzero_samples: 0,
        last_return_slot: 0,
        return_baseline_price_fp: 0,
        min_samples: p.min_samples,
        min_return_spacing_slots: p.min_return_spacing_slots,
        vol_mode: VolMode::spec_from_code(p.vol_mode)->Some_0,
        ewma_alpha_bps: p.ewma_alpha_bps,
        ewma_var_fp2: 0,
        realized_vol_bps: 0,
        implied_vol_bps: 0,
        vol_score_bps: 0,
        last_vol_score_bps: 0,
        vol_weight_realized_bps: p.vol_weight_realized_bps,
        vol_weight_implied_bps: p.vol_weight_implied_bps,
        min_band_bps: p.min_band_bps,
        max_band_bps: p.max_band_bps,
        min_interval_slots: p.min_interval_slots,
        max_interval_slots: p.max_interval_slots,
        band_bps: p.min_band_bps,
        min_hedge_interval_slots: p.min_interval_slots,
        policy_update_min_slots: p.policy_update_min_slots,
        max_policy_slew_bps: p.max_policy_slew_bps,
        hysteresis_bps: p.hysteresis_bps,
        oracle_feed_choice: OracleFeedChoice::spec_from_code(p.oracle_feed_choice)->Some_0,
        max_price_age_seconds: p.max_price_age_seconds,
        max_confidence_bps: p.max_confidence_bps,
        max_price_jump_bps: p.max_price_jump_bps,
        oracle_price_fp: 0,
        oracle_ema_price_fp: 0,
        oracle_conf_fp: 0,
        oracle_publish_time: 0,
        oracle_ok: false,
        last_oracle_price_fp: 0,
        last_oracle_ema_price_fp: 0,
        oracle_degraded: false,
        extreme_drift_bps: p.extreme_drift_bps,
        target_delta_bps: p.target_delta_bps,
        lst_beta_fp: p.lst_beta_fp,
        funding_bps_per_day: 0,
        borrow_bps_per_day: 0,
        staking_bps_per_day: 0,
        staking_accrued_usd: 0,
        last_hedge_slot: 0,
        last_hedge_ema_price_fp: 0,
        last_hedge_request_slot: 0,
        last_hedge_request_id: 0,
        request_outstanding: false,
        last_fill_slot: 0,
        hedge_fill_count: 0,
        avg_fill_slippage_bps: 0,
        missed_confirms: 0,
        max_confirm_delay_slots: p.max_confirm_delay_slots,
        paused: false,
        emergency_withdraw_enabled: false,
        keepers: spec_array_fill_for_copy_type::<Address, 8>(Address::spec_none()),
        keeper_count: 0,
        keeper_heartbeat_slot: spec_array_fill_for_copy_type::<u64, 8>(0u64),
        keeper_miss_count: spec_array_fill_for_copy_type::<u32, 8>(0u32),
        max_updates_per_epoch: p.max_updates_per_epoch,
        keeper_updates_this_epoch: spec_array_fill_for_copy_type::<u16, 8>(0u16),
        keeper_bond_required_lamports: p.keeper_bond_required_lamports,
        keeper_bond_deposited_lamports: spec_array_fill_for_copy_type::<u64, 8>(0u64),
    }
}

/// What is reported of a new vault: its roles and its whole configuration.
pub open spec fn initialized_event(s: VaultState) -> VaultInitialized {
    VaultInitialized {
        authority: s.authority,
        keeper_admin: s.keeper_admin,
        config_version: s.config_version,
        config_hash: s.config_hash,
        epoch: s.epoch,
        min_band_bps: s.min_band_bps,
        max_band_bps: s.max_band_bps,
        min_interval_slots: s.min_interval_slots,
        max_interval_slots: s.max_interval_slots,
        vol_weight_realized_bps: s.vol_weight_realized_bps,
        vol_weight_implied_bps: s.vol_weight_implied_bps,
        min_samples: s.min_samples,
        min_return_spacing_slots: s.min_return_spacing_slots,
        policy_update_min_slots: s.policy_update_min_slots,
        max_policy_slew_bps: s.max_policy_slew_bps,
        hysteresis_bps: s.hysteresis_bps,
        vol_mode: s.vol_mode.spec_code(),
        ewma_alpha_bps: s.ewma_alpha_bps,
        max_staked_sol: s.max_staked_sol,
        max_abs_hedge_notional_usd: s.max_abs_hedge_notional_usd,
        max_hedge_per_sol_usd_fp: s.max_hedge_per_sol_usd_fp,
        min_reserve_bps: s.min_reserve_bps,
        oracle_feed_choice: s.oracle_feed_choice.spec_code(),
        max_price_age_seconds: s.max_price_age_seconds,
        max_confidence_bps: s.max_confidence_bps,
        max_price_jump_bps: s.max_price_jump_bps,
        target_delta_bps: s.target_delta_bps,
        lst_beta_fp: s.lst_beta_fp,
        max_confirm_delay_slots: s.max_confirm_delay_slots,
        extreme_drift_bps: s.extreme_drift_bps,
        max_updates_per_epoch: s.max_updates_per_epoch,
        keeper_bond_required_lamports: s.keeper_bond_required_lamports,
    }
}

/// Makes a vault for `authority` from its parameters.
///
/// Parameters that do not describe a vault are refused. The new vault has
/// an exact non-zero counter, an empty keeper table, and band and interval
/// within their bounds.
pub fn initialize_vault(authority: Address, vault_bump: u8, params: InitializeParams) -> (r: Result<
    (VaultState, VaultInitialized),
    ErrorCode,
>)
    ensures
        params.valid() ==> r == Ok::<(VaultState, VaultInitialized), ErrorCode>(
            (
                blank_vault(authority, vault_bump, params).rehashed(),
                initialized_event(blank_vault(authority, vault_bump, params).rehashed()),
            ),
        ),
        !params.valid() ==> r == Err::<(VaultState, VaultInitialized), ErrorCode>(
            ErrorCode::InvalidParams,
        ),
        r matches Ok(made) ==> made.0.counter_consistent() && made.0.keepers_wf()
            && made.0.policy_within_bounds(),
{
    let (mode, choice) = match params.validate() {
        Ok(pair) => pair,
        Err(e) => {
            return Err(e);
        },
    };
    let mut state = VaultState {
        authority,
        pending_authority: Address::none(),
        keeper_admin: authority,
        vault_bump,
        config_version: 1,
        config_hash: [0u8; 32],
        epoch: 0,
        last_policy_update_slot: 0,
        staked_sol: 0,
        reserve_sol: 0,
        hedge_notional_usd: 0,
        max_staked_sol: params.max_staked_sol,
        max_abs_hedge_notional_usd: params.max_abs_hedge_notional_usd,
        max_hedge_per_sol_usd_fp: params.max_hedge_per_sol_usd_fp,
        min_reserve_bps: params.min_reserve_bps,
        returns_ring: [0i32; 32],
        returns_idx: 0,
        nonzero_samples: 0,
        last_return_slot: 0,
        return_baseline_price_fp: 0,
        min_samples: params.min_samples,
        min_return_spacing_slots: params.min_return_spacing_slots,
        vol_mode: mode,
        ewma_alpha_bps: params.ewma_alpha_bps,
        ewma_var_fp2: 0,
        realized_vol_bps: 0,
        implied_vol_bps: 0,
        vol_score_bps: 0,
        last_vol_score_bps: 0,
        vol_weight_realized_bps: params.vol_weight_realized_bps,
        vol_weight_implied_bps: params.vol_weight_implied_bps,
        min_band_bps: params.min_band_bps,
        max_band_bps: params.max_band_bps,
        min_interval_slots: params.min_interval_slots,
        max_interval_slots: params.max_interval_slots,
        band_bps: params.min_band_bps,
        min_hedge_interval_slots: params.min_interval_slots,
        policy_update_min_slots: params.policy_update_min_slots,
        max_policy_slew_bps: params.max_policy_slew_bps,
        hysteresis_bps: params.hysteresis_bps,
        oracle_feed_choice: choice,
        max_price_age_seconds: params.max_price_age_seconds,
        max_confidence_bps: params.max_confidence_bps,
        max_price_jump_bps: params.max_price_jump_bps,
        oracle_price_fp: 0,
        oracle_ema_price_fp: 0,
        oracle_conf_fp: 0,
        oracle_publish_time: 0,
        oracle_ok: false,
        last_oracle_price_fp: 0,
        last_oracle_ema_price_fp: 0,
        oracle_degraded: false,
        extreme_drift_bps: params.extreme_drift_bps,
        target_delta_bps: params.target_delta_bps,
        lst_beta_fp: params.lst_beta_fp,
        funding_bps_per_day: 0,
        borrow_bps_per_day: 0,
        staking_bps_per_day: 0,
        staking_accrued_usd: 0,
        last_hedge_slot: 0,
        last_hedge_ema_price_fp: 0,
        last_hedge_request_slot: 0,
        last_hedge_request_id: 0,
        request_outstanding: false,
        last_fill_slot: 0,
        hedge_fill_count: 0,
        avg_fill_slippage_bps: 0,
        missed_confirms: 0,
        max_confirm_delay_slots: params.max_confirm_delay_slots,
        paused: false,
        emergency_withdraw_enabled: false,
        keepers: [Address::none();8],
        keeper_count: 0,
        keeper_heartbeat_slot: [0u64; 8],
        keeper_miss_count: [0u32; 8],
        max_updates_per_epoch: params.max_updates_per_epoch,
        keeper_updates_this_epoch: [0u16; 8],
        keeper_bond_required_lamports: params.keeper_bond_required_lamports,
        keeper_bond_deposited_lamports: [0u64; 8],
    };
    proof {
        broadcast use vstd::array::group_array_axioms;

        assert(state == blank_vault(authority, vault_bump, params));
        lemma_count_nonzero_of_zeros(state.returns_ring@);
    }
    state.recompute_config_hash();
    let event = state.initialized();
    Ok((state, event))
}

impl VaultState {
    /// The roles and the configuration of the vault, as reported when it is made.
    pub fn initialized(&self) -> (event: VaultInitialized)
        ensures
            event == initialized_event(*self),
    {
        VaultInitialized {
            authority: self.authority,
            keeper_admin: self.keeper_admin,
            config_version: self.config_version,
            config_hash: self.config_hash,
            epoch: self.epoch,
            min_band_bps: self.min_band_bps,
            max_band_bps: self.max_band_bps,
            min_interval_slots: self.min_interval_slots,
            max_interval_slots: self.max_interval_slots,
            vol_weight_realized_bps: self.vol_weight_realized_bps,
            vol_weight_implied_bps: self.vol_weight_implied_bps,
            min_samples: self.min_samples,
            min_return_spacing_slots: self.min_return_spacing_slots,
            policy_update_min_slots: self.policy_update_min_slots,
            max_policy_slew_bps: self.max_policy_slew_bps,
            hysteresis_bps: self.hysteresis_bps,
            vol_mode: self.vol_mode.code(),
            ewma_alpha_bps: self.ewma_alpha_bps,
            max_staked_sol: self.max_staked_sol,
            max_abs_hedge_notional_usd: self.max_abs_hedge_notional_usd,
            max_hedge_per_sol_usd_fp: self.max_hedge_per_sol_usd_fp,
            min_reserve_bps: self.min_reserve_bps,
            oracle_feed_choice: self.oracle_feed_choice.code(),
            max_price_age_seconds: self.max_price_age_seconds,
            max_confidence_bps: self.max_confidence_bps,
            max_price_jump_bps: self.max_price_jump_bps,
            target_delta_bps: self.target_delta_bps,
            lst_beta_fp: self.lst_beta_fp,
            max_confirm_delay_slots: self.max_confirm_delay_slots,
            extreme_drift_bps: self.extreme_drift_bps,
            max_updates_per_epoch: self.max_updates_per_epoch,
            keeper_bond_required_lamports: self.keeper_bond_required_lamports,
        }
    }
}

} // verus!

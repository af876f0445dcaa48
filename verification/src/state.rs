//! The state of one managed position, and the parameters it is made from.

use vstd::prelude::*;
use crate::keys::Address;
use crate::oracle::OracleFeedChoice;
use crate::volatility::VolMode;

verus! {

/// Everything the vault remembers between operations.
///
/// One value of this type belongs to one managed position. Operations take it
/// by mutable reference; an operation that fails leaves it untouched.
#[derive(Clone, Copy, Debug, PartialEq, Eq)]
pub struct VaultState {
    // Roles.
    pub authority: Address,
    pub pending_authority: Address,
    pub keeper_admin: Address,
    pub vault_bump: u8,
    // Identity of the configuration: bumped and rehashed on every change.
    pub config_version: u64,
    pub config_hash: [u8; 32],
    // Epoch counter and the slot of the last policy update.
    pub epoch: u64,
    pub last_policy_update_slot: u64,
    // Exposures.
    pub staked_sol: u64,
    pub reserve_sol: u64,
    pub hedge_notional_usd: i64,
    // Caps and guardrails.
    pub max_staked_sol: u64,
    pub max_abs_hedge_notional_usd: i64,
    /// Largest hedge per staked unit, in fixed-point quote currency.
    pub max_hedge_per_sol_usd_fp: i64,
    pub min_reserve_bps: u16,
    // Return series: a ring of samples, pre-filled with zeros.
    pub returns_ring: [i32; 32],
    /// Write cursor of the ring; it wraps at 256, the slot is its value modulo 32.
    pub returns_idx: u8,
    /// Number of ring entries that are not zero.
    pub nonzero_samples: u16,
    /// Slot of the last stored sample; zero stands for "none yet".
    pub last_return_slot: u64,
    /// Price of the last stored observation, against which the next return
    /// is measured; zero stands for "none yet".
    pub return_baseline_price_fp: i64,
    pub min_samples: u8,
    pub min_return_spacing_slots: u64,
    // Realized-volatility model.
    pub vol_mode: VolMode,
    pub ewma_alpha_bps: u16,
    /// Running variance, in squared fixed-point units.
    pub ewma_var_fp2: u128,
    // Volatility outputs, in basis points.
    pub realized_vol_bps: u16,
    pub implied_vol_bps: u16,
    pub vol_score_bps: u16,
    /// The score at which the policy targets were last recomputed.
    pub last_vol_score_bps: u16,
    // Weights of the blended score; they sum to 10,000.
    pub vol_weight_realized_bps: u16,
    pub vol_weight_implied_bps: u16,
    // Policy bounds.
    pub min_band_bps: u16,
    pub max_band_bps: u16,
    pub min_interval_slots: u64,
    pub max_interval_slots: u64,
    // Policy outputs.
    pub band_bps: u16,
    pub min_hedge_interval_slots: u64,
    // Stability knobs.
    pub policy_update_min_slots: u64,
    pub max_policy_slew_bps: u16,
    pub hysteresis_bps: u16,
    // Oracle configuration.
    pub oracle_feed_choice: OracleFeedChoice,
    pub max_price_age_seconds: u64,
    pub max_confidence_bps: u16,
    pub max_price_jump_bps: u16,
    // The last accepted quote; a rejected quote leaves it as it is.
    pub oracle_price_fp: i64,
    pub oracle_ema_price_fp: i64,
    pub oracle_conf_fp: i64,
    /// Publish time of the last accepted quote, in unix seconds.
    pub oracle_publish_time: u64,
    /// Whether the most recent attempt was accepted.
    pub oracle_ok: bool,
    // The last accepted prices, as the jump check reads them.
    pub last_oracle_price_fp: i64,
    pub last_oracle_ema_price_fp: i64,
    // Circuit breaker.
    pub oracle_degraded: bool,
    pub extreme_drift_bps: u16,
    // Hedge sizing.
    pub target_delta_bps: u16,
    pub lst_beta_fp: i64,
    // Carry inputs, in basis points per day.
    pub funding_bps_per_day: i32,
    pub borrow_bps_per_day: i32,
    pub staking_bps_per_day: i32,
    pub staking_accrued_usd: i64,
    // Hedge timing and anchor.
    pub last_hedge_slot: u64,
    pub last_hedge_ema_price_fp: i64,
    // Hedge request and confirmation.
    pub last_hedge_request_slot: u64,
    pub last_hedge_request_id: u64,
    pub request_outstanding: bool,
    pub last_fill_slot: u64,
    pub hedge_fill_count: u64,
    pub avg_fill_slippage_bps: u16,
    pub missed_confirms: u32,
    pub max_confirm_delay_slots: u64,
    // Safety toggles.
    pub paused: bool,
    pub emergency_withdraw_enabled: bool,
    // Keeper table: the first `keeper_count` rows are in use.
    pub keepers: [Address; 8],
    pub keeper_count: u8,
    pub keeper_heartbeat_slot: [u64; 8],
    pub keeper_miss_count: [u32; 8],
    // Keeper controls.
    pub max_updates_per_epoch: u16,
    pub keeper_updates_this_epoch: [u16; 8],
    pub keeper_bond_required_lamports: u64,
    pub keeper_bond_deposited_lamports: [u64; 8],
}

/// The parameters a vault is made from.
#[derive(Clone, Copy, Debug, PartialEq, Eq)]
pub struct InitializeParams {
    pub min_band_bps: u16,
    pub max_band_bps: u16,
    pub min_interval_slots: u64,
    pub max_interval_slots: u64,
    pub vol_weight_realized_bps: u16,
    pub vol_weight_implied_bps: u16,
    pub min_samples: u8,
    pub min_return_spacing_slots: u64,
    pub policy_update_min_slots: u64,
    pub max_policy_slew_bps: u16,
    pub hysteresis_bps: u16,
    /// Number of the estimator, see `VolMode::from_code`.
    pub vol_mode: u8,
    pub ewma_alpha_bps: u16,
    pub max_staked_sol: u64,
    pub max_abs_hedge_notional_usd: i64,
    pub max_hedge_per_sol_usd_fp: i64,
    pub min_reserve_bps: u16,
    /// Number of the feed choice, see `OracleFeedChoice::from_code`.
    pub oracle_feed_choice: u8,
    pub max_price_age_seconds: u64,
    pub max_confidence_bps: u16,
    pub max_price_jump_bps: u16,
    pub target_delta_bps: u16,
    pub lst_beta_fp: i64,
    pub max_confirm_delay_slots: u64,
    pub extreme_drift_bps: u16,
    pub max_updates_per_epoch: u16,
    pub keeper_bond_required_lamports: u64,
}

/// The number of entries of a sample sequence that are not zero.
pub open spec fn count_nonzero(s: Seq<i32>) -> nat
    decreases s.len(),
{
    if s.len() == 0 {
        0
    } else {
        count_nonzero(s.drop_last()) + if s.last() != 0 {
            1nat
        } else {
            0nat
        }
    }
}

impl VaultState {
    /// The non-zero counter equals the number of ring entries that are not zero.
    pub open spec fn counter_consistent(&self) -> bool {
        self.nonzero_samples == count_nonzero(self.returns_ring@)
    }

    /// The keeper table uses at most its eight rows.
    pub open spec fn keepers_wf(&self) -> bool {
        self.keeper_count <= 8
    }

    /// Current band and interval lie within their configured bounds.
    pub open spec fn policy_within_bounds(&self) -> bool {
        &&& self.min_band_bps <= self.band_bps <= self.max_band_bps
        &&& self.min_interval_slots <= self.min_hedge_interval_slots <= self.max_interval_slots
    }
}

} // verus!

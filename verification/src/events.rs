//! What the operations report to the outside: one plain record per event.

use vstd::prelude::*;
use crate::keys::Address;

verus! {

/// A vault was made; carries its whole configuration.
#[derive(Clone, Copy, Debug, PartialEq, Eq)]
pub struct VaultInitialized {
    pub authority: Address,
    pub keeper_admin: Address,
    pub config_version: u64,
    pub config_hash: [u8; 32],
    pub epoch: u64,
    pub min_band_bps: u16,
    pub max_band_bps: u16,
    pub min_interval_slots: u64,
    pub max_interval_slots: u64,
    pub vol_weight_realized_bps: u16,
    pub vol_weight_implied_bps: u16,
    pub min_samples: u8,
    pub min_return_spacing_slots: u64,
    pub policy_update_min_slots: u64,
    pub max_policy_slew_bps: u16,
    pub hysteresis_bps: u16,
    pub vol_mode: u8,
    pub ewma_alpha_bps: u16,
    pub max_staked_sol: u64,
    pub max_abs_hedge_notional_usd: i64,
    pub max_hedge_per_sol_usd_fp: i64,
    pub min_reserve_bps: u16,
    pub oracle_feed_choice: u8,
    pub max_price_age_seconds: u64,
    pub max_confidence_bps: u16,
    pub max_price_jump_bps: u16,
    pub target_delta_bps: u16,
    pub lst_beta_fp: i64,
    pub max_confirm_delay_slots: u64,
    pub extreme_drift_bps: u16,
    pub max_updates_per_epoch: u16,
    pub keeper_bond_required_lamports: u64,
}

/// A deposit was added to the stake.
#[derive(Clone, Copy, Debug, PartialEq, Eq)]
pub struct StakeAllocated {
    pub epoch: u64,
    pub slot: u64,
    pub amount_sol: u64,
    pub new_staked_sol: u64,
    pub reserve_sol: u64,
}

/// A deposit was added to the reserve.
#[derive(Clone, Copy, Debug, PartialEq, Eq)]
pub struct ReserveUpdated {
    pub epoch: u64,
    pub slot: u64,
    pub reserve_sol: u64,
    pub min_reserve_bps: u16,
}

/// A keeper fed a new implied volatility.
#[derive(Clone, Copy, Debug, PartialEq, Eq)]
pub struct ImpliedVolUpdated {
    pub epoch: u64,
    pub slot: u64,
    pub implied_vol_bps: u16,
}

/// A keeper fed new carry inputs.
#[derive(Clone, Copy, Debug, PartialEq, Eq)]
pub struct CarryInputsUpdated {
    pub epoch: u64,
    pub slot: u64,
    pub funding_bps_per_day: i32,
    pub borrow_bps_per_day: i32,
    pub staking_bps_per_day: i32,
    pub expected_carry_bps: i32,
}

/// An oracle attempt was taken in, accepted or not.
#[derive(Clone, Copy, Debug, PartialEq, Eq)]
pub struct OraclePriceUpdated {
    pub epoch: u64,
    pub slot: u64,
    pub feed_used: u8,
    pub oracle_price_fp: i64,
    pub oracle_ema_price_fp: i64,
    pub oracle_conf_fp: i64,
    pub oracle_publish_time: u64,
    pub oracle_ok: bool,
    pub oracle_degraded: bool,
}

/// A return sample entered the ring.
#[derive(Clone, Copy, Debug, PartialEq, Eq)]
pub struct OracleReturnRecorded {
    pub epoch: u64,
    pub slot: u64,
    pub idx: u8,
    pub return_fp: i32,
    pub nonzero_samples: u16,
    pub oracle_price_fp: i64,
}

/// An oracle attempt was rejected and the circuit breaker is set.
#[derive(Clone, Copy, Debug, PartialEq, Eq)]
pub struct OracleDegraded {
    pub epoch: u64,
    pub slot: u64,
    pub feed_used: u8,
    pub reason_code: u8,
    pub oracle_publish_time: u64,
}

/// An epoch ended; carries the volatility figures of the update.
#[derive(Clone, Copy, Debug, PartialEq, Eq)]
pub struct EpochUpdated {
    pub epoch: u64,
    pub slot: u64,
    pub realized_vol_bps: u16,
    pub implied_vol_bps: u16,
    pub vol_score_bps: u16,
    pub realized_updated: bool,
    pub nonzero_samples: u16,
    pub oracle_degraded: bool,
}

/// The policy targets were recomputed from a new score.
#[derive(Clone, Copy, Debug, PartialEq, Eq)]
pub struct PolicyIntentComputed {
    pub epoch: u64,
    pub slot: u64,
    pub vol_score_bps: u16,
    pub expected_carry_bps: i32,
    pub bias_band_bps: i16,
    pub bias_interval_bps: i16,
    pub target_band_bps: u16,
    pub target_interval_slots: u64,
}

/// Band and interval moved toward their targets.
#[derive(Clone, Copy, Debug, PartialEq, Eq)]
pub struct PolicyUpdated {
    pub epoch: u64,
    pub slot: u64,
    pub band_bps: u16,
    pub min_hedge_interval_slots: u64,
    pub vol_score_bps: u16,
    pub hysteresis_pass: bool,
    pub max_policy_slew_bps: u16,
}

/// Band and interval were kept because the oracle is degraded.
#[derive(Clone, Copy, Debug, PartialEq, Eq)]
pub struct PolicyFrozen {
    pub epoch: u64,
    pub slot: u64,
    pub band_bps: u16,
    pub min_hedge_interval_slots: u64,
    pub reason_code: u8,
}

/// The net asset value and its parts.
#[derive(Clone, Copy, Debug, PartialEq, Eq)]
pub struct NavSnapshot {
    pub epoch: u64,
    pub slot: u64,
    pub nav_usd: i64,
    pub staked_value_usd: i64,
    pub reserve_value_usd: i64,
    pub unrealized_pnl_usd: i64,
    pub staking_accrued_usd: i64,
    pub oracle_price_fp: i64,
    pub oracle_ok: bool,
}

/// The main figures of the vault at the end of a policy update.
#[derive(Clone, Copy, Debug, PartialEq, Eq)]
pub struct VaultSnapshot {
    pub epoch: u64,
    pub slot: u64,
    pub staked_sol: u64,
    pub reserve_sol: u64,
    pub hedge_notional_usd: i64,
    pub band_bps: u16,
    pub min_hedge_interval_slots: u64,
    pub realized_vol_bps: u16,
    pub implied_vol_bps: u16,
    pub vol_score_bps: u16,
    pub keeper_count: u8,
    pub paused: bool,
    pub emergency_withdraw_enabled: bool,
    pub slot_now: u64,
    pub oracle_price_fp: i64,
    pub oracle_ema_price_fp: i64,
    pub oracle_conf_fp: i64,
    pub oracle_publish_time: u64,
    pub oracle_ok: bool,
    pub oracle_degraded: bool,
    pub expected_carry_bps: i32,
    pub config_version: u64,
    pub config_hash: [u8; 32],
}

/// A hedge adjustment was requested; carries what the executor needs to act.
#[derive(Clone, Copy, Debug, PartialEq, Eq)]
pub struct HedgeRequested {
    pub epoch: u64,
    pub slot: u64,
    pub request_id: u64,
    pub band_bps: u16,
    pub min_hedge_interval_slots: u64,
    pub staked_sol: u64,
    pub reserve_sol: u64,
    pub hedge_notional_usd: i64,
    pub target_hedge_notional_usd: i64,
    pub delta_gap_usd: i64,
    pub reason_code: u8,
    pub drift_bps: u16,
    pub ema_price_fp: i64,
    pub last_hedge_ema_price_fp: i64,
    pub oracle_price_fp: i64,
    pub oracle_conf_fp: i64,
    pub oracle_publish_time: u64,
    pub oracle_ok: bool,
    pub oracle_degraded: bool,
    pub target_delta_bps: u16,
    pub beta_fp: i64,
    pub expected_carry_bps: i32,
    pub config_version: u64,
    pub config_hash: [u8; 32],
}

/// A keeper confirmed the execution of a hedge request.
#[derive(Clone, Copy, Debug, PartialEq, Eq)]
pub struct HedgeConfirmed {
    pub epoch: u64,
    pub slot: u64,
    pub request_id: u64,
    pub hedge_notional_usd: i64,
    pub fill_price_fp: i64,
    pub ref_price_fp: i64,
    pub slippage_bps: u16,
    pub avg_fill_slippage_bps: u16,
    pub hedge_fill_count: u64,
}

/// A hedge request timed out without a confirmation.
#[derive(Clone, Copy, Debug, PartialEq, Eq)]
pub struct HedgeConfirmMissed {
    pub epoch: u64,
    pub slot: u64,
    pub request_id: u64,
    pub since_request_slots: u64,
    pub missed_confirms: u32,
}

/// The pause switch was set.
#[derive(Clone, Copy, Debug, PartialEq, Eq)]
pub struct PausedSet {
    pub epoch: u64,
    pub slot: u64,
    pub paused: bool,
    pub config_version: u64,
    pub config_hash: [u8; 32],
}

/// The emergency-withdraw switch was set.
#[derive(Clone, Copy, Debug, PartialEq, Eq)]
pub struct EmergencyModeSet {
    pub epoch: u64,
    pub slot: u64,
    pub emergency_withdraw_enabled: bool,
    pub config_version: u64,
    pub config_hash: [u8; 32],
}

/// A new authority was proposed.
#[derive(Clone, Copy, Debug, PartialEq, Eq)]
pub struct PendingAuthoritySet {
    pub epoch: u64,
    pub slot: u64,
    pub pending_authority: Address,
    pub config_version: u64,
    pub config_hash: [u8; 32],
}

/// The proposed authority took over.
#[derive(Clone, Copy, Debug, PartialEq, Eq)]
pub struct AuthorityAccepted {
    pub epoch: u64,
    pub slot: u64,
    pub old_authority: Address,
    pub new_authority: Address,
    pub new_keeper_admin: Address,
    pub config_version: u64,
    pub config_hash: [u8; 32],
}

/// A new keeper admin was named.
#[derive(Clone, Copy, Debug, PartialEq, Eq)]
pub struct KeeperAdminSet {
    pub epoch: u64,
    pub slot: u64,
    pub keeper_admin: Address,
    pub config_version: u64,
    pub config_hash: [u8; 32],
}

/// A keeper was added to or removed from the table.
#[derive(Clone, Copy, Debug, PartialEq, Eq)]
pub struct KeeperSet {
    pub epoch: u64,
    pub slot: u64,
    pub keeper: Address,
    pub is_added: bool,
    pub keeper_count: u8,
    pub config_version: u64,
    pub config_hash: [u8; 32],
}

/// The policy bounds were changed.
#[derive(Clone, Copy, Debug, PartialEq, Eq)]
pub struct PolicyBoundsUpdated {
    pub epoch: u64,
    pub slot: u64,
    pub min_band_bps: u16,
    pub max_band_bps: u16,
    pub min_interval_slots: u64,
    pub max_interval_slots: u64,
    pub config_version: u64,
    pub config_hash: [u8; 32],
}

/// The stability knobs of the policy were changed.
#[derive(Clone, Copy, Debug, PartialEq, Eq)]
pub struct PolicyStabilityUpdated {
    pub epoch: u64,
    pub slot: u64,
    pub policy_update_min_slots: u64,
    pub max_policy_slew_bps: u16,
    pub hysteresis_bps: u16,
    pub extreme_drift_bps: u16,
    pub config_version: u64,
    pub config_hash: [u8; 32],
}

/// The volatility model was changed.
#[derive(Clone, Copy, Debug, PartialEq, Eq)]
pub struct VolModelUpdated {
    pub epoch: u64,
    pub slot: u64,
    pub vol_mode: u8,
    pub ewma_alpha_bps: u16,
    pub min_samples: u8,
    pub min_return_spacing_slots: u64,
    pub config_version: u64,
    pub config_hash: [u8; 32],
}

/// The oracle gate was reconfigured.
#[derive(Clone, Copy, Debug, PartialEq, Eq)]
pub struct OracleConfigUpdated {
    pub epoch: u64,
    pub slot: u64,
    pub oracle_feed_choice: u8,
    pub max_price_age_seconds: u64,
    pub max_confidence_bps: u16,
    pub max_price_jump_bps: u16,
    pub config_version: u64,
    pub config_hash: [u8; 32],
}

/// The hedge sizing knobs were changed.
#[derive(Clone, Copy, Debug, PartialEq, Eq)]
pub struct HedgeSizingUpdated {
    pub epoch: u64,
    pub slot: u64,
    pub target_delta_bps: u16,
    pub beta_fp: i64,
    pub config_version: u64,
    pub config_hash: [u8; 32],
}

/// The risk caps were changed.
#[derive(Clone, Copy, Debug, PartialEq, Eq)]
pub struct RiskCapsUpdated {
    pub epoch: u64,
    pub slot: u64,
    pub max_staked_sol: u64,
    pub max_abs_hedge_notional_usd: i64,
    pub max_hedge_per_sol_usd_fp: i64,
    pub min_reserve_bps: u16,
    pub config_version: u64,
    pub config_hash: [u8; 32],
}

/// Rate limit and bond of the keepers were changed.
#[derive(Clone, Copy, Debug, PartialEq, Eq)]
pub struct KeeperControlsUpdated {
    pub epoch: u64,
    pub slot: u64,
    pub max_updates_per_epoch: u16,
    pub keeper_bond_required_lamports: u64,
    pub config_version: u64,
    pub config_hash: [u8; 32],
}

/// The confirmation timeout was changed.
#[derive(Clone, Copy, Debug, PartialEq, Eq)]
pub struct ConfirmConfigUpdated {
    pub epoch: u64,
    pub slot: u64,
    pub max_confirm_delay_slots: u64,
    pub config_version: u64,
    pub config_hash: [u8; 32],
}

/// A keeper added to its bond.
#[derive(Clone, Copy, Debug, PartialEq, Eq)]
pub struct KeeperBondUpdated {
    pub epoch: u64,
    pub slot: u64,
    pub keeper: Address,
    pub deposited_lamports: u64,
    pub required_lamports: u64,
}

} // verus!

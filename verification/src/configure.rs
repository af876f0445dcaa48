//! Reconfiguration by the authority: policy bounds and stability, the
//! volatility model, the oracle gate, hedge sizing, risk caps, keeper
//! controls and the confirmation timeout. Every change is validated first,
//! then bumps the configuration version and renews its digest.

use vstd::prelude::*;
use crate::errors::ErrorCode;
use crate::events::{
    ConfirmConfigUpdated, HedgeSizingUpdated, KeeperControlsUpdated, OracleConfigUpdated,
    PolicyBoundsUpdated, PolicyStabilityUpdated, RiskCapsUpdated, VolModelUpdated,
};
use crate::fixed_point::{abs_diff, abs_int, max_int};
use crate::oracle::OracleFeedChoice;
use crate::policy::{
    interpolate, lemma_interpolate_bounds, lemma_slew_limited_bounds, map_u16_by_bps,
    map_u64_by_bps, slew_limit_u16, slew_limit_u64, slew_limited,
};
use crate::risk::{leverage_check, required_reserve};
use crate::state::VaultState;
use crate::volatility::VolMode;

verus! {

impl VaultState {
    /// Why new policy bounds are refused, if they are: bounds out of order
    /// or above 100%, or a current score that does not map onto them.
    pub open spec fn bounds_refusal(
        &self,
        min_band_bps: u16,
        max_band_bps: u16,
        min_interval_slots: u64,
        max_interval_slots: u64,
    ) -> Option<ErrorCode> {
        if min_band_bps > max_band_bps || max_band_bps > 10000 || min_interval_slots
            > max_interval_slots {
            Some(ErrorCode::InvalidParams)
        } else if interpolate(self.vol_score_bps as int, min_band_bps as int, max_band_bps as int)
            > u16::MAX {
            Some(ErrorCode::MathOverflow)
        } else if interpolate(
            self.vol_score_bps as int,
            min_interval_slots as int,
            max_interval_slots as int,
        ) > u64::MAX {
            Some(ErrorCode::MathOverflow)
        } else {
            None
        }
    }

    /// The state after new policy bounds: band and interval move toward the
    /// current score mapped onto the new bounds, under the slew limit.
    pub open spec fn after_bounds(
        self,
        min_band_bps: u16,
        max_band_bps: u16,
        min_interval_slots: u64,
        max_interval_slots: u64,
    ) -> VaultState {
        (VaultState {
            min_band_bps,
            max_band_bps,
            min_interval_slots,
            max_interval_slots,
            band_bps: slew_limited(
                self.band_bps as int,
                interpolate(self.vol_score_bps as int, min_band_bps as int, max_band_bps as int),
                self.max_policy_slew_bps as int,
            ) as u16,
            min_hedge_interval_slots: slew_limited(
                self.min_hedge_interval_slots as int,
                interpolate(
                    self.vol_score_bps as int,
                    min_interval_slots as int,
                    max_interval_slots as int,
                ),
                self.max_policy_slew_bps as int,
            ) as u64,
            ..self
        }).config_bumped()
    }

    /// Why new risk caps are refused, if they are: a cap that is not
    /// positive or a reserve share above 100%; or a position that the new
    /// caps would not admit.
    pub open spec fn caps_refusal(
        &self,
        max_staked_sol: u64,
        max_abs_hedge_notional_usd: i64,
        max_hedge_per_sol_usd_fp: i64,
        min_reserve_bps: u16,
    ) -> Option<ErrorCode> {
        if max_staked_sol == 0 || max_abs_hedge_notional_usd <= 0 || max_hedge_per_sol_usd_fp <= 0
            || min_reserve_bps > 10000 {
            Some(ErrorCode::InvalidParams)
        } else if self.staked_sol > max_staked_sol {
            Some(ErrorCode::CapExceeded)
        } else if abs_int(self.hedge_notional_usd as int) > max_abs_hedge_notional_usd {
            Some(ErrorCode::CapExceeded)
        } else if leverage_check(
            self.staked_sol as int,
            self.hedge_notional_usd as int,
            max_hedge_per_sol_usd_fp as int,
        ) is Err {
            Some(
                leverage_check(
                    self.staked_sol as int,
                    self.hedge_notional_usd as int,
                    max_hedge_per_sol_usd_fp as int,
                )->Err_0,
            )
        } else if self.reserve_sol < required_reserve(
            self.staked_sol as int,
            min_reserve_bps as int,
        ) {
            Some(ErrorCode::ReserveTooLow)
        } else {
            None
        }
    }
}

/// Sets the policy bounds and moves band and interval toward the current
/// score mapped onto them.
pub fn set_policy_bounds(
    state: &mut VaultState,
    slot: u64,
    min_band_bps: u16,
    max_band_bps: u16,
    min_interval_slots: u64,
    max_interval_slots: u64,
) -> (r: Result<PolicyBoundsUpdated, ErrorCode>)
    ensures
        match old(state).bounds_refusal(
            min_band_bps,
            max_band_bps,
            min_interval_slots,
            max_interval_slots,
        ) {
            Some(e) => r == Err::<PolicyBoundsUpdated, ErrorCode>(e) && *final(state) == *old(
                state,
            ),
            None => {
                &&& *final(state) == old(state).after_bounds(
                    min_band_bps,
                    max_band_bps,
                    min_interval_slots,
                    max_interval_slots,
                )
                &&& r == Ok::<PolicyBoundsUpdated, ErrorCode>(
                    PolicyBoundsUpdated {
                        epoch: old(state).epoch,
                        slot,
                        min_band_bps,
                        max_band_bps,
                        min_interval_slots,
                        max_interval_slots,
                        config_version: final(state).config_version,
                        config_hash: final(state).config_hash,
                    },
                )
            },
        },
{
    if min_band_bps > max_band_bps || max_band_bps > 10_000 || min_interval_slots
        > max_interval_slots {
        return Err(ErrorCode::InvalidParams);
    }
    let target_band = match map_u16_by_bps(state.vol_score_bps, min_band_bps, max_band_bps) {
        Ok(v) => v,
        Err(e) => {
            return Err(e);
        },
    };
    let target_interval = match map_u64_by_bps(
        state.vol_score_bps,
        min_interval_slots,
        max_interval_slots,
    ) {
        Ok(v) => v,
        Err(e) => {
            return Err(e);
        },
    };
    let band = match slew_limit_u16(state.band_bps, target_band, state.max_policy_slew_bps) {
        Ok(v) => v,
        Err(e) => {
            return Err(e);
        },
    };
    let interval = match slew_limit_u64(
        state.min_hedge_interval_slots,
        target_interval,
        state.max_policy_slew_bps,
    ) {
        Ok(v) => v,
        Err(e) => {
            return Err(e);
        },
    };
    state.min_band_bps = min_band_bps;
    state.max_band_bps = max_band_bps;
    state.min_interval_slots = min_interval_slots;
    state.max_interval_slots = max_interval_slots;
    state.band_bps = band;
    state.min_hedge_interval_slots = interval;
    state.bump_config_version_and_hash();
    Ok(
        PolicyBoundsUpdated {
            epoch: state.epoch,
            slot,
            min_band_bps,
            max_band_bps,
            min_interval_slots,
            max_interval_slots,
            config_version: state.config_version,
            config_hash: state.config_hash,
        },
    )
}

/// Sets cooldown, slew cap, hysteresis and the extreme-drift threshold.
pub fn set_policy_stability(
    state: &mut VaultState,
    slot: u64,
    policy_update_min_slots: u64,
    max_policy_slew_bps: u16,
    hysteresis_bps: u16,
    extreme_drift_bps: u16,
) -> (r: Result<PolicyStabilityUpdated, ErrorCode>)
    ensures
        ({
            let valid = policy_update_min_slots > 0 && 0 < max_policy_slew_bps <= 10000
                && hysteresis_bps <= 10000 && extreme_drift_bps <= 10000;
            &&& !valid ==> r == Err::<PolicyStabilityUpdated, ErrorCode>(ErrorCode::InvalidParams)
                && *final(state) == *old(state)
            &&& valid ==> *final(state) == (VaultState {
                policy_update_min_slots,
                max_policy_slew_bps,
                hysteresis_bps,
                extreme_drift_bps,
                ..*old(state)
            }).config_bumped() && r == Ok::<PolicyStabilityUpdated, ErrorCode>(
                PolicyStabilityUpdated {
                    epoch: old(state).epoch,
                    slot,
                    policy_update_min_slots,
                    max_policy_slew_bps,
                    hysteresis_bps,
                    extreme_drift_bps,
                    config_version: final(state).config_version,
                    config_hash: final(state).config_hash,
                },
            )
        }),
{
    if policy_update_min_slots == 0 || max_policy_slew_bps == 0 || max_policy_slew_bps > 10_000
        || hysteresis_bps > 10_000 || extreme_drift_bps > 10_000 {
        return Err(ErrorCode::InvalidParams);
    }
    state.policy_update_min_slots = policy_update_min_slots;
    state.max_policy_slew_bps = max_policy_slew_bps;
    state.hysteresis_bps = hysteresis_bps;
    state.extreme_drift_bps = extreme_drift_bps;
    state.bump_config_version_and_hash();
    Ok(
        PolicyStabilityUpdated {
            epoch: state.epoch,
            slot,
            policy_update_min_slots,
            max_policy_slew_bps,
            hysteresis_bps,
            extreme_drift_bps,
            config_version: state.config_version,
            config_hash: state.config_hash,
        },
    )
}

/// Selects the estimator and sets the sample gate of the return series.
pub fn set_vol_model(
    state: &mut VaultState,
    slot: u64,
    vol_mode: u8,
    ewma_alpha_bps: u16,
    min_samples: u8,
    min_return_spacing_slots: u64,
) -> (r: Result<VolModelUpdated, ErrorCode>)
    ensures
        ({
            let valid = VolMode::spec_from_code(vol_mode) is Some && (vol_mode == 1 ==> 0
                < ewma_alpha_bps <= 10000) && 0 < min_samples <= 32 && min_return_spacing_slots
                > 0;
            &&& !valid ==> r == Err::<VolModelUpdated, ErrorCode>(ErrorCode::InvalidParams)
                && *final(state) == *old(state)
            &&& valid ==> *final(state) == (VaultState {
                vol_mode: VolMode::spec_from_code(vol_mode)->Some_0,
                ewma_alpha_bps,
                min_samples,
                min_return_spacing_slots,
                ..*old(state)
            }).config_bumped() && r == Ok::<VolModelUpdated, ErrorCode>(
                VolModelUpdated {
                    epoch: old(state).epoch,
                    slot,
                    vol_mode,
                    ewma_alpha_bps,
                    min_samples,
                    min_return_spacing_slots,
                    config_version: final(state).config_version,
                    config_hash: final(state).config_hash,
                },
            )
        }),
{
    let mode = match VolMode::from_code(vol_mode) {
        Some(m) => m,
        None => {
            return Err(ErrorCode::InvalidParams);
        },
    };
    if vol_mode == 1 && (ewma_alpha_bps == 0 || ewma_alpha_bps > 10_000) {
        return Err(ErrorCode::InvalidParams);
    }
    if min_samples == 0 || min_samples > 32 || min_return_spacing_slots == 0 {
        return Err(ErrorCode::InvalidParams);
    }
    state.vol_mode = mode;
    state.ewma_alpha_bps = ewma_alpha_bps;
    state.min_samples = min_samples;
    state.min_return_spacing_slots = min_return_spacing_slots;
    state.bump_config_version_and_hash();
    Ok(
        VolModelUpdated {
            epoch: state.epoch,
            slot,
            vol_mode,
            ewma_alpha_bps,
            min_samples,
            min_return_spacing_slots,
            config_version: state.config_version,
            config_hash: state.config_hash,
        },
    )
}

/// Reconfigures the oracle gate.
pub fn set_oracle_config(
    state: &mut VaultState,
    slot: u64,
    oracle_feed_choice: u8,
    max_price_age_seconds: u64,
    max_confidence_bps: u16,
    max_price_jump_bps: u16,
) -> (r: Result<OracleConfigUpdated, ErrorCode>)
    ensures
        ({
            let valid = OracleFeedChoice::spec_from_code(oracle_feed_choice) is Some
                && max_price_age_seconds > 0 && max_confidence_bps <= 10000 && max_price_jump_bps
                <= 10000;
            &&& !valid ==> r == Err::<OracleConfigUpdated, ErrorCode>(ErrorCode::InvalidParams)
                && *final(state) == *old(state)
            &&& valid ==> *final(state) == (VaultState {
                oracle_feed_choice: OracleFeedChoice::spec_from_code(oracle_feed_choice)->Some_0,
                max_price_age_seconds,
                max_confidence_bps,
                max_price_jump_bps,
                ..*old(state)
            }).config_bumped() && r == Ok::<OracleConfigUpdated, ErrorCode>(
                OracleConfigUpdated {
                    epoch: old(state).epoch,
                    slot,
                    oracle_feed_choice,
                    max_price_age_seconds,
                    max_confidence_bps,
                    max_price_jump_bps,
                    config_version: final(state).config_version,
                    config_hash: final(state).config_hash,
                },
            )
        }),
{
    let choice = match OracleFeedChoice::from_code(oracle_feed_choice) {
        Some(c) => c,
        None => {
            return Err(ErrorCode::InvalidParams);
        },
    };
    if max_price_age_seconds == 0 || max_confidence_bps > 10_000 || max_price_jump_bps > 10_000 {
        return Err(ErrorCode::InvalidParams);
    }
    state.oracle_feed_choice = choice;
    state.max_price_age_seconds = max_price_age_seconds;
    state.max_confidence_bps = max_confidence_bps;
    state.max_price_jump_bps = max_price_jump_bps;
    state.bump_config_version_and_hash();
    Ok(
        OracleConfigUpdated {
            epoch: state.epoch,
            slot,
            oracle_feed_choice,
            max_price_age_seconds,
            max_confidence_bps,
            max_price_jump_bps,
            config_version: state.config_version,
            config_hash: state.config_hash,
        },
    )
}

/// Sets the target delta and the sensitivity of the hedge sizing.
pub fn set_hedge_sizing(state: &mut VaultState, slot: u64, target_delta_bps: u16, lst_beta_fp: i64)
    -> (r: Result<HedgeSizingUpdated, ErrorCode>)
    ensures
        ({
            let valid = target_delta_bps <= 10000 && lst_beta_fp > 0;
            &&& !valid ==> r == Err::<HedgeSizingUpdated, ErrorCode>(ErrorCode::InvalidParams)
                && *final(state) == *old(state)
            &&& valid ==> *final(state) == (VaultState {
                target_delta_bps,
                lst_beta_fp,
                ..*old(state)
            }).config_bumped() && r == Ok::<HedgeSizingUpdated, ErrorCode>(
                HedgeSizingUpdated {
                    epoch: old(state).epoch,
                    slot,
                    target_delta_bps,
                    beta_fp: lst_beta_fp,
                    config_version: final(state).config_version,
                    config_hash: final(state).config_hash,
                },
            )
        }),
{
    if target_delta_bps > 10_000 || lst_beta_fp <= 0 {
        return Err(ErrorCode::InvalidParams);
    }
    state.target_delta_bps = target_delta_bps;
    state.lst_beta_fp = lst_beta_fp;
    state.bump_config_version_and_hash();
    Ok(
        HedgeSizingUpdated {
            epoch: state.epoch,
            slot,
            target_delta_bps,
            beta_fp: lst_beta_fp,
            config_version: state.config_version,
            config_hash: state.config_hash,
        },
    )
}

/// Sets the risk caps; the current position must fit the new caps.
pub fn set_risk_caps(
    state: &mut VaultState,
    slot: u64,
    max_staked_sol: u64,
    max_abs_hedge_notional_usd: i64,
    max_hedge_per_sol_usd_fp: i64,
    min_reserve_bps: u16,
) -> (r: Result<RiskCapsUpdated, ErrorCode>)
    ensures
        match old(state).caps_refusal(
            max_staked_sol,
            max_abs_hedge_notional_usd,
            max_hedge_per_sol_usd_fp,
            min_reserve_bps,
        ) {
            Some(e) => r == Err::<RiskCapsUpdated, ErrorCode>(e) && *final(state) == *old(state),
            None => {
                &&& *final(state) == (VaultState {
                    max_staked_sol,
                    max_abs_hedge_notional_usd,
                    max_hedge_per_sol_usd_fp,
                    min_reserve_bps,
                    ..*old(state)
                }).config_bumped()
                &&& r == Ok::<RiskCapsUpdated, ErrorCode>(
                    RiskCapsUpdated {
                        epoch: old(state).epoch,
                        slot,
                        max_staked_sol,
                        max_abs_hedge_notional_usd,
                        max_hedge_per_sol_usd_fp,
                        min_reserve_bps,
                        config_version: final(state).config_version,
                        config_hash: final(state).config_hash,
                    },
                )
            },
        },
{
    if max_staked_sol == 0 || max_abs_hedge_notional_usd <= 0 || max_hedge_per_sol_usd_fp <= 0
        || min_reserve_bps > 10_000 {
        return Err(ErrorCode::InvalidParams);
    }
    let mut next: VaultState = *state;
    next.max_staked_sol = max_staked_sol;
    next.max_abs_hedge_notional_usd = max_abs_hedge_notional_usd;
    next.max_hedge_per_sol_usd_fp = max_hedge_per_sol_usd_fp;
    next.min_reserve_bps = min_reserve_bps;
    if next.staked_sol > next.max_staked_sol {
        return Err(ErrorCode::CapExceeded);
    }
    let magnitude: i128 = if next.hedge_notional_usd < 0 {
        -(next.hedge_notional_usd as i128)
    } else {
        next.hedge_notional_usd as i128
    };
    if magnitude > (next.max_abs_hedge_notional_usd as i128) {
        return Err(ErrorCode::CapExceeded);
    }
    match next.enforce_leverage_guardrail() {
        Ok(()) => {},
        Err(e) => {
            return Err(e);
        },
    }
    match next.enforce_reserve_ratio() {
        Ok(()) => {},
        Err(e) => {
            return Err(e);
        },
    }
    next.bump_config_version_and_hash();
    *state = next;
    Ok(
        RiskCapsUpdated {
            epoch: state.epoch,
            slot,
            max_staked_sol,
            max_abs_hedge_notional_usd,
            max_hedge_per_sol_usd_fp,
            min_reserve_bps,
            config_version: state.config_version,
            config_hash: state.config_hash,
        },
    )
}

/// Sets the rate limit and the required bond of the keepers.
pub fn set_keeper_controls(
    state: &mut VaultState,
    slot: u64,
    max_updates_per_epoch: u16,
    keeper_bond_required_lamports: u64,
) -> (r: Result<KeeperControlsUpdated, ErrorCode>)
    ensures
        max_updates_per_epoch == 0 ==> r == Err::<KeeperControlsUpdated, ErrorCode>(
            ErrorCode::InvalidParams,
        ) && *final(state) == *old(state),
        max_updates_per_epoch > 0 ==> *final(state) == (VaultState {
            max_updates_per_epoch,
            keeper_bond_required_lamports,
            ..*old(state)
        }).config_bumped() && r == Ok::<KeeperControlsUpdated, ErrorCode>(
            KeeperControlsUpdated {
                epoch: old(state).epoch,
                slot,
                max_updates_per_epoch,
                keeper_bond_required_lamports,
                config_version: final(state).config_version,
                config_hash: final(state).config_hash,
            },
        ),
{
    if max_updates_per_epoch == 0 {
        return Err(ErrorCode::InvalidParams);
    }
    state.max_updates_per_epoch = max_updates_per_epoch;
    state.keeper_bond_required_lamports = keeper_bond_required_lamports;
    state.bump_config_version_and_hash();
    Ok(
        KeeperControlsUpdated {
            epoch: state.epoch,
            slot,
            max_updates_per_epoch,
            keeper_bond_required_lamports,
            config_version: state.config_version,
            config_hash: state.config_hash,
        },
    )
}

/// Sets the confirmation timeout of hedge requests.
pub fn set_confirm_config(state: &mut VaultState, slot: u64, max_confirm_delay_slots: u64) -> (r:
    Result<ConfirmConfigUpdated, ErrorCode>)
    ensures
        max_confirm_delay_slots == 0 ==> r == Err::<ConfirmConfigUpdated, ErrorCode>(
            ErrorCode::InvalidParams,
        ) && *final(state) == *old(state),
        max_confirm_delay_slots > 0 ==> *final(state) == (VaultState {
            max_confirm_delay_slots,
            ..*old(state)
        }).config_bumped() && r == Ok::<ConfirmConfigUpdated, ErrorCode>(
            ConfirmConfigUpdated {
                epoch: old(state).epoch,
                slot,
                max_confirm_delay_slots,
                config_version: final(state).config_version,
                config_hash: final(state).config_hash,
            },
        ),
{
    if max_confirm_delay_slots == 0 {
        return Err(ErrorCode::InvalidParams);
    }
    state.max_confirm_delay_slots = max_confirm_delay_slots;
    state.bump_config_version_and_hash();
    Ok(
        ConfirmConfigUpdated {
            epoch: state.epoch,
            slot,
            max_confirm_delay_slots,
            config_version: state.config_version,
            config_hash: state.config_hash,
        },
    )
}

/// New policy bounds move band and interval by at most the slew budget:
/// from a value above zero, by at most the larger of one unit and the slew
/// share of that value.
pub proof fn lemma_new_bounds_are_slew_limited(
    s: VaultState,
    min_band_bps: u16,
    max_band_bps: u16,
    min_interval_slots: u64,
    max_interval_slots: u64,
)
    requires
        s.bounds_refusal(min_band_bps, max_band_bps, min_interval_slots, max_interval_slots)
            is None,
    ensures
        ({
            let next = s.after_bounds(
                min_band_bps,
                max_band_bps,
                min_interval_slots,
                max_interval_slots,
            );
            &&& s.band_bps > 0 ==> abs_diff(next.band_bps as int, s.band_bps as int) <= max_int(
                1,
                s.band_bps * s.max_policy_slew_bps / 10000,
            )
            &&& s.min_hedge_interval_slots > 0 ==> abs_diff(
                next.min_hedge_interval_slots as int,
                s.min_hedge_interval_slots as int,
            ) <= max_int(1, s.min_hedge_interval_slots * s.max_policy_slew_bps / 10000)
        }),
{
    lemma_interpolate_bounds(s.vol_score_bps as int, min_band_bps as int, max_band_bps as int);
    lemma_interpolate_bounds(
        s.vol_score_bps as int,
        min_interval_slots as int,
        max_interval_slots as int,
    );
    lemma_slew_limited_bounds(
        s.band_bps as int,
        interpolate(s.vol_score_bps as int, min_band_bps as int, max_band_bps as int),
        s.max_policy_slew_bps as int,
    );
    lemma_slew_limited_bounds(
        s.min_hedge_interval_slots as int,
        interpolate(s.vol_score_bps as int, min_interval_slots as int, max_interval_slots as int),
        s.max_policy_slew_bps as int,
    );
}

} // verus!

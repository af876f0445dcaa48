//! The periodic policy update: a new epoch, a new volatility score, and band
//! and interval moved toward their targets under hysteresis and slew limit.
//! While the oracle is degraded the policy is frozen.

use vstd::prelude::*;
use vstd::array::spec_array_fill_for_copy_type;
use crate::errors::ErrorCode;
use crate::events::{
    EpochUpdated, NavSnapshot, PolicyFrozen, PolicyIntentComputed, PolicyUpdated, VaultSnapshot,
};
use crate::fixed_point::{abs_diff, max_int};
use crate::keys::Address;
use crate::policy::{
    apply_bps_bias_u16, apply_bps_bias_u64, biased, blended_score, carry_bias,
    carry_policy_bias_bps, interpolate, lemma_slew_limited_bounds, limit_to, map_u16_by_bps,
    map_u64_by_bps, slew_limit_u16, slew_limit_u64, slew_limited, weighted_vol_score_bps,
};
use crate::risk::valuation;
use crate::state::VaultState;
use crate::volatility::{compute_realized_vol_bps_mode, realized_vol_bps};

verus! {

/// What one policy update computes while the oracle is healthy.
#[derive(Clone, Copy, Debug, PartialEq, Eq)]
pub struct PolicyStep {
    /// The realized volatility after the update.
    pub realized_vol_bps: u16,
    /// Whether the realized volatility was estimated anew.
    pub realized_updated: bool,
    /// The blended score.
    pub vol_score_bps: u16,
    /// Whether the targets were recomputed from the score.
    pub retargeted: bool,
    /// The carry bias applied to the targets, in basis points.
    pub bias_bps: i16,
    pub target_band_bps: u16,
    pub target_interval_slots: u64,
    /// Band and interval after the slew limit.
    pub band_bps: u16,
    pub min_hedge_interval_slots: u64,
}

/// Everything a policy update reports.
#[derive(Clone, Copy, Debug, PartialEq, Eq)]
pub struct EpochPolicyOutcome {
    pub intent: Option<PolicyIntentComputed>,
    pub updated: Option<PolicyUpdated>,
    pub frozen: Option<PolicyFrozen>,
    pub nav: NavSnapshot,
    pub epoch: EpochUpdated,
    pub snapshot: VaultSnapshot,
}

impl VaultState {
    /// Whether the policy cooldown has passed at `slot`; before the first
    /// update there is none.
    pub open spec fn cooldown_passed(&self, slot: u64) -> bool {
        self.last_policy_update_slot == 0 || (if slot >= self.last_policy_update_slot {
            slot - self.last_policy_update_slot
        } else {
            0
        }) >= self.policy_update_min_slots
    }

    /// Whether the ring holds enough samples to estimate the realized
    /// volatility anew.
    pub open spec fn enough_samples(&self) -> bool {
        self.nonzero_samples >= self.min_samples
    }

    /// The realized volatility after an update.
    pub open spec fn next_realized(&self) -> int {
        if self.enough_samples() {
            realized_vol_bps(self.vol_mode, self.returns_ring@, self.ewma_var_fp2 as int)
        } else {
            self.realized_vol_bps as int
        }
    }

    /// The blended score after an update.
    pub open spec fn next_score(&self) -> int {
        blended_score(
            self.next_realized(),
            self.implied_vol_bps as int,
            self.vol_weight_realized_bps as int,
            self.vol_weight_implied_bps as int,
        )
    }

    /// Whether the new score moves the targets: it differs from the score of
    /// the last retargeting by the hysteresis threshold, or there was none.
    pub open spec fn retargets(&self) -> bool {
        abs_diff(self.next_score(), self.last_vol_score_bps as int) >= self.hysteresis_bps
            || self.last_vol_score_bps == 0
    }

    /// The band target of a retargeting: the score mapped onto the band
    /// bounds, with the carry bias, and held within the bounds.
    pub open spec fn band_target(&self) -> int {
        limit_to(
            biased(
                interpolate(self.next_score(), self.min_band_bps as int, self.max_band_bps as int),
                carry_bias(self.carry()),
            ),
            self.min_band_bps as int,
            self.max_band_bps as int,
        )
    }

    /// The interval target of a retargeting: the score mapped onto the
    /// interval bounds, with the carry bias, and held within the bounds.
    pub open spec fn interval_target(&self) -> int {
        limit_to(
            biased(
                interpolate(
                    self.next_score(),
                    self.min_interval_slots as int,
                    self.max_interval_slots as int,
                ),
                carry_bias(self.carry()),
            ),
            self.min_interval_slots as int,
            self.max_interval_slots as int,
        )
    }

    /// Why a retargeting fails, if it does: bounds out of order, or a score
    /// that maps beyond the integer range.
    pub open spec fn retarget_failure(&self) -> Option<ErrorCode> {
        if self.min_band_bps > self.max_band_bps {
            Some(ErrorCode::InvalidParams)
        } else if interpolate(
            self.next_score(),
            self.min_band_bps as int,
            self.max_band_bps as int,
        ) > u16::MAX {
            Some(ErrorCode::MathOverflow)
        } else if self.min_interval_slots > self.max_interval_slots {
            Some(ErrorCode::InvalidParams)
        } else if interpolate(
            self.next_score(),
            self.min_interval_slots as int,
            self.max_interval_slots as int,
        ) > u64::MAX {
            Some(ErrorCode::MathOverflow)
        } else {
            None
        }
    }

    /// What a policy update computes while the oracle is healthy.
    pub open spec fn policy_step(&self) -> Result<PolicyStep, ErrorCode> {
        if !self.retargets() {
            Ok(
                PolicyStep {
                    realized_vol_bps: self.next_realized() as u16,
                    realized_updated: self.enough_samples(),
                    vol_score_bps: self.next_score() as u16,
                    retargeted: false,
                    bias_bps: 0,
                    target_band_bps: self.band_bps,
                    target_interval_slots: self.min_hedge_interval_slots,
                    band_bps: self.band_bps,
                    min_hedge_interval_slots: self.min_hedge_interval_slots,
                },
            )
        } else if self.retarget_failure() is Some {
            Err(self.retarget_failure()->Some_0)
        } else {
            Ok(
                PolicyStep {
                    realized_vol_bps: self.next_realized() as u16,
                    realized_updated: self.enough_samples(),
                    vol_score_bps: self.next_score() as u16,
                    retargeted: true,
                    bias_bps: carry_bias(self.carry()) as i16,
                    target_band_bps: self.band_target() as u16,
                    target_interval_slots: self.interval_target() as u64,
                    band_bps: slew_limited(
                        self.band_bps as int,
                        self.band_target(),
                        self.max_policy_slew_bps as int,
                    ) as u16,
                    min_hedge_interval_slots: slew_limited(
                        self.min_hedge_interval_slots as int,
                        self.interval_target(),
                        self.max_policy_slew_bps as int,
                    ) as u64,
                },
            )
        }
    }

    /// Computes the policy step of a healthy oracle.
    pub fn compute_policy_step(&self) -> (r: Result<PolicyStep, ErrorCode>)
        ensures
            r == self.policy_step(),
            0 <= self.next_realized() <= u16::MAX,
            0 <= self.next_score() <= 10000,
    {
        let mut realized = self.realized_vol_bps;
        let mut realized_updated = false;
        if self.nonzero_samples >= (self.min_samples as u16) {
            realized =
            match compute_realized_vol_bps_mode(
                self.vol_mode,
                &self.returns_ring,
                self.ewma_var_fp2,
            ) {
                Ok(v) => v,
                Err(e) => {
                    return Err(e);
                },
            };
            realized_updated = true;
        }
        let score = match weighted_vol_score_bps(
            realized,
            self.implied_vol_bps,
            self.vol_weight_realized_bps,
            self.vol_weight_implied_bps,
        ) {
            Ok(v) => v,
            Err(e) => {
                return Err(e);
            },
        };
        let last = self.last_vol_score_bps;
        let delta: u16 = if score >= last {
            score - last
        } else {
            last - score
        };
        let hysteresis_pass = delta >= self.hysteresis_bps;
        if !(hysteresis_pass || last == 0) {
            return Ok(
                PolicyStep {
                    realized_vol_bps: realized,
                    realized_updated,
                    vol_score_bps: score,
                    retargeted: false,
                    bias_bps: 0,
                    target_band_bps: self.band_bps,
                    target_interval_slots: self.min_hedge_interval_slots,
                    band_bps: self.band_bps,
                    min_hedge_interval_slots: self.min_hedge_interval_slots,
                },
            );
        }
        let base_band = match map_u16_by_bps(score, self.min_band_bps, self.max_band_bps) {
            Ok(v) => v,
            Err(e) => {
                return Err(e);
            },
        };
        let base_interval = match map_u64_by_bps(
            score,
            self.min_interval_slots,
            self.max_interval_slots,
        ) {
            Ok(v) => v,
            Err(e) => {
                return Err(e);
            },
        };
        let carry = self.expected_carry_bps();
        let (bias_band, bias_interval) = match carry_policy_bias_bps(carry) {
            Ok(pair) => pair,
            Err(e) => {
                return Err(e);
            },
        };
        let biased_band = match apply_bps_bias_u16(base_band, bias_band) {
            Ok(v) => v,
            Err(e) => {
                return Err(e);
            },
        };
        let target_band: u16 = if biased_band < self.min_band_bps {
            self.min_band_bps
        } else if biased_band > self.max_band_bps {
            self.max_band_bps
        } else {
            biased_band
        };
        // A biased interval beyond the integer range lies above the upper bound.
        let target_interval: u64 = match apply_bps_bias_u64(base_interval, bias_interval) {
            Ok(v) => if v < self.min_interval_slots {
                self.min_interval_slots
            } else if v > self.max_interval_slots {
                self.max_interval_slots
            } else {
                v
            },
            Err(_) => self.max_interval_slots,
        };
        let band = match slew_limit_u16(self.band_bps, target_band, self.max_policy_slew_bps) {
            Ok(v) => v,
            Err(e) => {
                return Err(e);
            },
        };
        let interval = match slew_limit_u64(
            self.min_hedge_interval_slots,
            target_interval,
            self.max_policy_slew_bps,
        ) {
            Ok(v) => v,
            Err(e) => {
                return Err(e);
            },
        };
        Ok(
            PolicyStep {
                realized_vol_bps: realized,
                realized_updated,
                vol_score_bps: score,
                retargeted: true,
                bias_bps: bias_band,
                target_band_bps: target_band,
                target_interval_slots: target_interval,
                band_bps: band,
                min_hedge_interval_slots: interval,
            },
        )
    }
}

impl VaultState {
    /// Why a policy update is refused, if it is: the checks in the order
    /// pause, role, rate limit, cooldown, epoch counter, policy step, net
    /// asset value, and the two valuations that the report holds.
    pub open spec fn policy_refusal(&self, signer: Address, slot: u64) -> Option<ErrorCode> {
        if self.paused {
            Some(ErrorCode::Paused)
        } else if !self.may_feed(signer) {
            Some(ErrorCode::Unauthorized)
        } else if self.rate_limit_verdict(signer) is Err {
            Some(self.rate_limit_verdict(signer)->Err_0)
        } else if !self.cooldown_passed(slot) {
            Some(ErrorCode::PolicyCooldown)
        } else if self.epoch == u64::MAX {
            Some(ErrorCode::MathOverflow)
        } else if !self.oracle_degraded && self.policy_step() is Err {
            Some(self.policy_step()->Err_0)
        } else if self.nav() is Err {
            Some(self.nav()->Err_0)
        } else if valuation(self.staked_sol as int, self.oracle_price_fp as int) is Err {
            Some(valuation(self.staked_sol as int, self.oracle_price_fp as int)->Err_0)
        } else if valuation(self.reserve_sol as int, self.oracle_price_fp as int) is Err {
            Some(valuation(self.reserve_sol as int, self.oracle_price_fp as int)->Err_0)
        } else {
            None
        }
    }

    /// The state after a policy update at `slot`: a new epoch with fresh
    /// keeper counters; and, unless the oracle is degraded, the new
    /// volatility figures and the policy after its step.
    pub open spec fn after_policy_update(self, slot: u64) -> VaultState {
        let opened = VaultState {
            last_policy_update_slot: slot,
            epoch: (self.epoch + 1) as u64,
            keeper_updates_this_epoch: spec_array_fill_for_copy_type::<u16, 8>(0u16),
            ..self
        };
        if self.oracle_degraded {
            opened
        } else {
            let step = self.policy_step()->Ok_0;
            VaultState {
                realized_vol_bps: step.realized_vol_bps,
                vol_score_bps: step.vol_score_bps,
                last_vol_score_bps: if step.retargeted {
                    step.vol_score_bps
                } else {
                    self.last_vol_score_bps
                },
                band_bps: step.band_bps,
                min_hedge_interval_slots: step.min_hedge_interval_slots,
                ..opened
            }
        }
    }

    /// The net asset value and its parts, as reported at `slot`.
    pub open spec fn nav_snapshot(self, slot: u64) -> NavSnapshot {
        NavSnapshot {
            epoch: self.epoch,
            slot,
            nav_usd: self.nav()->Ok_0,
            staked_value_usd: valuation(self.staked_sol as int, self.oracle_price_fp as int)->Ok_0,
            reserve_value_usd: valuation(
                self.reserve_sol as int,
                self.oracle_price_fp as int,
            )->Ok_0,
            unrealized_pnl_usd: 0,
            staking_accrued_usd: self.staking_accrued_usd,
            oracle_price_fp: self.oracle_price_fp,
            oracle_ok: self.oracle_ok,
        }
    }

    /// The main figures of the vault, as reported at `slot`.
    pub open spec fn vault_snapshot(self, slot: u64) -> VaultSnapshot {
        VaultSnapshot {
            epoch: self.epoch,
            slot,
            staked_sol: self.staked_sol,
            reserve_sol: self.reserve_sol,
            hedge_notional_usd: self.hedge_notional_usd,
            band_bps: self.band_bps,
            min_hedge_interval_slots: self.min_hedge_interval_slots,
            realized_vol_bps: self.realized_vol_bps,
            implied_vol_bps: self.implied_vol_bps,
            vol_score_bps: self.vol_score_bps,
            keeper_count: self.keeper_count,
            paused: self.paused,
            emergency_withdraw_enabled: self.emergency_withdraw_enabled,
            slot_now: slot,
            oracle_price_fp: self.oracle_price_fp,
            oracle_ema_price_fp: self.oracle_ema_price_fp,
            oracle_conf_fp: self.oracle_conf_fp,
            oracle_publish_time: self.oracle_publish_time,
            oracle_ok: self.oracle_ok,
            oracle_degraded: self.oracle_degraded,
            expected_carry_bps: self.carry() as i32,
            config_version: self.config_version,
            config_hash: self.config_hash,
        }
    }

    /// Everything an admitted policy update at `slot` reports.
    pub open spec fn policy_outcome(self, slot: u64) -> EpochPolicyOutcome {
        let next = self.after_policy_update(slot);
        let step = self.policy_step()->Ok_0;
        EpochPolicyOutcome {
            intent: if !self.oracle_degraded && step.retargeted {
                Some(
                    PolicyIntentComputed {
                        epoch: next.epoch,
                        slot,
                        vol_score_bps: step.vol_score_bps,
                        expected_carry_bps: self.carry() as i32,
                        bias_band_bps: step.bias_bps,
                        bias_interval_bps: step.bias_bps,
                        target_band_bps: step.target_band_bps,
                        target_interval_slots: step.target_interval_slots,
                    },
                )
            } else {
                None
            },
            updated: if !self.oracle_degraded {
                Some(
                    PolicyUpdated {
                        epoch: next.epoch,
                        slot,
                        band_bps: next.band_bps,
                        min_hedge_interval_slots: next.min_hedge_interval_slots,
                        vol_score_bps: next.vol_score_bps,
                        hysteresis_pass: step.retargeted,
                        max_policy_slew_bps: self.max_policy_slew_bps,
                    },
                )
            } else {
                None
            },
            frozen: if self.oracle_degraded {
                Some(
                    PolicyFrozen {
                        epoch: next.epoch,
                        slot,
                        band_bps: self.band_bps,
                        min_hedge_interval_slots: self.min_hedge_interval_slots,
                        reason_code: 1,
                    },
                )
            } else {
                None
            },
            nav: next.nav_snapshot(slot),
            epoch: EpochUpdated {
                epoch: next.epoch,
                slot,
                realized_vol_bps: next.realized_vol_bps,
                implied_vol_bps: next.implied_vol_bps,
                vol_score_bps: next.vol_score_bps,
                realized_updated: !self.oracle_degraded && step.realized_updated,
                nonzero_samples: next.nonzero_samples,
                oracle_degraded: next.oracle_degraded,
            },
            snapshot: next.vault_snapshot(slot),
        }
    }

    /// The main figures of the vault at `slot`.
    pub fn snapshot(&self, slot: u64) -> (snap: VaultSnapshot)
        ensures
            snap == self.vault_snapshot(slot),
    {
        VaultSnapshot {
            epoch: self.epoch,
            slot,
            staked_sol: self.staked_sol,
            reserve_sol: self.reserve_sol,
            hedge_notional_usd: self.hedge_notional_usd,
            band_bps: self.band_bps,
            min_hedge_interval_slots: self.min_hedge_interval_slots,
            realized_vol_bps: self.realized_vol_bps,
            implied_vol_bps: self.implied_vol_bps,
            vol_score_bps: self.vol_score_bps,
            keeper_count: self.keeper_count,
            paused: self.paused,
            emergency_withdraw_enabled: self.emergency_withdraw_enabled,
            slot_now: slot,
            oracle_price_fp: self.oracle_price_fp,
            oracle_ema_price_fp: self.oracle_ema_price_fp,
            oracle_conf_fp: self.oracle_conf_fp,
            oracle_publish_time: self.oracle_publish_time,
            oracle_ok: self.oracle_ok,
            oracle_degraded: self.oracle_degraded,
            expected_carry_bps: self.expected_carry_bps(),
            config_version: self.config_version,
            config_hash: self.config_hash,
        }
    }
}

/// Opens a new epoch and updates the policy.
///
/// The update is admitted when the vault runs, the caller may feed it and
/// the cooldown has passed. While the oracle is degraded, band and
/// interval, realized volatility and score stay as they are.
pub fn update_epoch_and_policy(state: &mut VaultState, signer: &Address, slot: u64) -> (r: Result<
    EpochPolicyOutcome,
    ErrorCode,
>)
    ensures
        match old(state).policy_refusal(*signer, slot) {
            Some(e) => r == Err::<EpochPolicyOutcome, ErrorCode>(e) && *final(state) == *old(
                state,
            ),
            None => {
                &&& *final(state) == old(state).after_policy_update(slot)
                &&& r == Ok::<EpochPolicyOutcome, ErrorCode>(old(state).policy_outcome(slot))
            },
        },
        old(state).oracle_degraded ==> final(state).band_bps == old(state).band_bps,
        old(state).oracle_degraded ==> final(state).min_hedge_interval_slots == old(
            state,
        ).min_hedge_interval_slots,
{
    match state.require_not_paused() {
        Ok(()) => {},
        Err(e) => {
            return Err(e);
        },
    }
    match state.require_keeper_feeder(signer) {
        Ok(()) => {},
        Err(e) => {
            return Err(e);
        },
    }
    match state.require_keeper_rate_limit_ok(signer) {
        Ok(()) => {},
        Err(e) => {
            return Err(e);
        },
    }
    if state.last_policy_update_slot != 0 {
        let elapsed: u64 = if slot >= state.last_policy_update_slot {
            slot - state.last_policy_update_slot
        } else {
            0
        };
        if elapsed < state.policy_update_min_slots {
            return Err(ErrorCode::PolicyCooldown);
        }
    }
    let epoch = match state.epoch.checked_add(1) {
        Some(v) => v,
        None => {
            return Err(ErrorCode::MathOverflow);
        },
    };
    let mut next: VaultState = *state;
    next.last_policy_update_slot = slot;
    next.epoch = epoch;
    next.keeper_updates_this_epoch = [0u16; 8];
    let mut intent: Option<PolicyIntentComputed> = None;
    let mut updated: Option<PolicyUpdated> = None;
    let mut frozen: Option<PolicyFrozen> = None;
    let mut realized_updated = false;
    if !state.oracle_degraded {
        let step = match state.compute_policy_step() {
            Ok(step) => step,
            Err(e) => {
                return Err(e);
            },
        };
        next.realized_vol_bps = step.realized_vol_bps;
        next.vol_score_bps = step.vol_score_bps;
        realized_updated = step.realized_updated;
        if step.retargeted {
            next.last_vol_score_bps = step.vol_score_bps;
            intent =
            Some(
                PolicyIntentComputed {
                    epoch,
                    slot,
                    vol_score_bps: step.vol_score_bps,
                    expected_carry_bps: state.expected_carry_bps(),
                    bias_band_bps: step.bias_bps,
                    bias_interval_bps: step.bias_bps,
                    target_band_bps: step.target_band_bps,
                    target_interval_slots: step.target_interval_slots,
                },
            );
        }
        next.band_bps = step.band_bps;
        next.min_hedge_interval_slots = step.min_hedge_interval_slots;
        updated =
        Some(
            PolicyUpdated {
                epoch,
                slot,
                band_bps: next.band_bps,
                min_hedge_interval_slots: next.min_hedge_interval_slots,
                vol_score_bps: next.vol_score_bps,
                hysteresis_pass: step.retargeted,
                max_policy_slew_bps: next.max_policy_slew_bps,
            },
        );
    } else {
        frozen =
        Some(
            PolicyFrozen {
                epoch,
                slot,
                band_bps: next.band_bps,
                min_hedge_interval_slots: next.min_hedge_interval_slots,
                reason_code: 1,
            },
        );
    }
    let nav_usd = match next.compute_nav_usd() {
        Ok(v) => v,
        Err(e) => {
            return Err(e);
        },
    };
    let staked_value_usd = match next.staked_value_usd() {
        Ok(v) => v,
        Err(e) => {
            return Err(e);
        },
    };
    let reserve_value_usd = match next.reserve_value_usd() {
        Ok(v) => v,
        Err(e) => {
            return Err(e);
        },
    };
    let nav = NavSnapshot {
        epoch,
        slot,
        nav_usd,
        staked_value_usd,
        reserve_value_usd,
        unrealized_pnl_usd: 0,
        staking_accrued_usd: next.staking_accrued_usd,
        oracle_price_fp: next.oracle_price_fp,
        oracle_ok: next.oracle_ok,
    };
    let epoch_updated = EpochUpdated {
        epoch,
        slot,
        realized_vol_bps: next.realized_vol_bps,
        implied_vol_bps: next.implied_vol_bps,
        vol_score_bps: next.vol_score_bps,
        realized_updated,
        nonzero_samples: next.nonzero_samples,
        oracle_degraded: next.oracle_degraded,
    };
    let snapshot = next.snapshot(slot);
    proof {
        let model = old(state).after_policy_update(slot);
        assert(next.keeper_updates_this_epoch =~= model.keeper_updates_this_epoch);
        assert(next == model);
    }
    *state = next;
    Ok(EpochPolicyOutcome { intent, updated, frozen, nav, epoch: epoch_updated, snapshot })
}

/// While the oracle is degraded, a policy update changes neither band nor
/// interval, whatever the volatility inputs are; realized volatility and
/// score stay as well.
pub proof fn lemma_degraded_update_freezes_policy(s: VaultState, slot: u64)
    requires
        s.oracle_degraded,
    ensures
        s.after_policy_update(slot).band_bps == s.band_bps,
        s.after_policy_update(slot).min_hedge_interval_slots == s.min_hedge_interval_slots,
        s.after_policy_update(slot).realized_vol_bps == s.realized_vol_bps,
        s.after_policy_update(slot).vol_score_bps == s.vol_score_bps,
        s.after_policy_update(slot).last_vol_score_bps == s.last_vol_score_bps,
{
}

/// A policy update moves band and interval by at most the slew budget:
/// from a value above zero, by at most the larger of one unit and the slew
/// share of that value. From zero the policy jumps to its target.
pub proof fn lemma_policy_update_is_slew_limited(s: VaultState, slot: u64)
    requires
        s.oracle_degraded || s.policy_step() is Ok,
    ensures
        s.band_bps > 0 ==> abs_diff(
            s.after_policy_update(slot).band_bps as int,
            s.band_bps as int,
        ) <= max_int(1, s.band_bps * s.max_policy_slew_bps / 10000),
        s.min_hedge_interval_slots > 0 ==> abs_diff(
            s.after_policy_update(slot).min_hedge_interval_slots as int,
            s.min_hedge_interval_slots as int,
        ) <= max_int(1, s.min_hedge_interval_slots * s.max_policy_slew_bps / 10000),
{
    if !s.oracle_degraded && s.retargets() {
        lemma_slew_limited_bounds(
            s.band_bps as int,
            s.band_target(),
            s.max_policy_slew_bps as int,
        );
        lemma_slew_limited_bounds(
            s.min_hedge_interval_slots as int,
            s.interval_target(),
            s.max_policy_slew_bps as int,
        );
    }
}

/// A policy update keeps band and interval within their bounds, whatever
/// the score and the carry are.
pub proof fn lemma_policy_update_stays_within_bounds(s: VaultState, slot: u64)
    requires
        s.policy_within_bounds(),
        s.oracle_degraded || s.policy_step() is Ok,
    ensures
        s.after_policy_update(slot).policy_within_bounds(),
{
    if !s.oracle_degraded && s.retargets() {
        lemma_slew_limited_bounds(
            s.band_bps as int,
            s.band_target(),
            s.max_policy_slew_bps as int,
        );
        lemma_slew_limited_bounds(
            s.min_hedge_interval_slots as int,
            s.interval_target(),
            s.max_policy_slew_bps as int,
        );
    }
}

} // verus!

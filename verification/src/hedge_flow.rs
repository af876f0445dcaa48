//! The hedge protocol: anyone may request an adjustment once interval and
//! drift allow it; a keeper confirms the execution of the last request.

use vstd::prelude::*;
use crate::errors::ErrorCode;
use crate::events::{HedgeConfirmMissed, HedgeConfirmed, HedgeRequested};
use crate::fixed_point::{ewma, ewma_u16, min_int};
use crate::hedge::{
    compute_price_drift_bps, compute_reason_code, compute_slippage_bps,
    compute_target_hedge_notional_usd_delta, drift_bps, reason_code, slippage_bps,
    target_hedge_fits, target_hedge_notional,
};
use crate::keys::Address;
use crate::state::VaultState;

verus! {

/// What a successful hedge request reports: the request itself, and the
/// timeout of an earlier request where this one replaced it.
#[derive(Clone, Copy, Debug, PartialEq, Eq)]
pub struct HedgeRequestOutcome {
    pub missed: Option<HedgeConfirmMissed>,
    pub requested: HedgeRequested,
}

/// A counter one higher, or at the top of its range.
pub open spec fn bump_u64(x: u64) -> u64 {
    if x == u64::MAX {
        x
    } else {
        (x + 1) as u64
    }
}

/// A counter one higher, or at the top of its range.
pub open spec fn bump_u32(x: u32) -> u32 {
    if x == u32::MAX {
        x
    } else {
        (x + 1) as u32
    }
}

impl VaultState {
    /// Slots since `earlier`; a slot before it counts as the longest wait.
    pub open spec fn slots_since(earlier: u64, slot: u64) -> u64 {
        if slot >= earlier {
            (slot - earlier) as u64
        } else {
            u64::MAX
        }
    }

    /// Whether the minimum hedge interval has passed at `slot`.
    pub open spec fn hedge_interval_ok(&self, slot: u64) -> bool {
        Self::slots_since(self.last_hedge_slot, slot) >= self.min_hedge_interval_slots
    }

    /// Drift of the stored EMA price from the anchor of the last hedge.
    pub open spec fn hedge_drift(&self) -> int {
        drift_bps(self.oracle_ema_price_fp as int, self.last_hedge_ema_price_fp as int)
    }

    /// The price that sizes and judges a hedge: the spot price where the last
    /// attempt was accepted, else the EMA price.
    pub open spec fn reference_price(&self) -> i64 {
        if self.oracle_ok && self.oracle_price_fp > 0 {
            self.oracle_price_fp
        } else {
            self.oracle_ema_price_fp
        }
    }

    /// The delta-neutral target at the reference price.
    pub open spec fn hedge_target(&self) -> int {
        target_hedge_notional(
            self.staked_sol as int,
            self.reference_price() as int,
            self.target_delta_bps as int,
            self.lst_beta_fp as int,
        )
    }

    /// Why a hedge request at `slot` is refused, if it is: the checks in the
    /// order pause, price, interval, drift, sizing.
    pub open spec fn request_refusal(&self, slot: u64) -> Option<ErrorCode> {
        if self.paused {
            Some(ErrorCode::Paused)
        } else if self.oracle_ema_price_fp <= 0 {
            Some(ErrorCode::OracleNotReady)
        } else if !self.hedge_interval_ok(slot) {
            Some(ErrorCode::HedgeTooSoon)
        } else if self.oracle_degraded && self.hedge_drift() < self.extreme_drift_bps {
            Some(ErrorCode::OracleDegradedHedgeBlocked)
        } else if !self.oracle_degraded && self.hedge_drift() < self.band_bps {
            Some(ErrorCode::DriftNotMet)
        } else if !target_hedge_fits(
            self.staked_sol as int,
            self.reference_price() as int,
            self.target_delta_bps as int,
            self.lst_beta_fp as int,
        ) {
            Some(ErrorCode::MathOverflow)
        } else if self.hedge_target() - self.hedge_notional_usd > i64::MAX {
            Some(ErrorCode::MathOverflow)
        } else if self.hedge_target() - self.hedge_notional_usd < i64::MIN {
            Some(ErrorCode::MathOverflow)
        } else {
            None
        }
    }

    /// Whether an outstanding request has waited longer than the
    /// confirmation timeout at `slot`.
    pub open spec fn request_timed_out(&self, slot: u64) -> bool {
        self.request_outstanding && Self::slots_since(self.last_hedge_request_slot, slot)
            > self.max_confirm_delay_slots
    }

    /// The state after a hedge request was admitted at `slot`: a timed-out
    /// request is counted as missed, the anchor moves to `slot` and the
    /// stored EMA price, and a new request is outstanding.
    pub open spec fn after_request(self, slot: u64) -> VaultState {
        VaultState {
            missed_confirms: if self.request_timed_out(slot) {
                bump_u32(self.missed_confirms)
            } else {
                self.missed_confirms
            },
            last_hedge_slot: slot,
            last_hedge_ema_price_fp: self.oracle_ema_price_fp,
            last_hedge_request_id: bump_u64(self.last_hedge_request_id),
            last_hedge_request_slot: slot,
            request_outstanding: true,
            ..self
        }
    }

    /// What is reported of a request that timed out.
    pub open spec fn missed_event(self, slot: u64) -> HedgeConfirmMissed {
        HedgeConfirmMissed {
            epoch: self.epoch,
            slot,
            request_id: self.last_hedge_request_id,
            since_request_slots: Self::slots_since(self.last_hedge_request_slot, slot),
            missed_confirms: bump_u32(self.missed_confirms),
        }
    }

    /// What is reported of an admitted request.
    pub open spec fn requested_event(self, slot: u64) -> HedgeRequested {
        HedgeRequested {
            epoch: self.epoch,
            slot,
            request_id: bump_u64(self.last_hedge_request_id),
            band_bps: self.band_bps,
            min_hedge_interval_slots: self.min_hedge_interval_slots,
            staked_sol: self.staked_sol,
            reserve_sol: self.reserve_sol,
            hedge_notional_usd: self.hedge_notional_usd,
            target_hedge_notional_usd: self.hedge_target() as i64,
            delta_gap_usd: (self.hedge_target() - self.hedge_notional_usd) as i64,
            reason_code: reason_code(
                self.hedge_interval_ok(slot),
                self.hedge_drift() >= self.band_bps,
            ),
            drift_bps: self.hedge_drift() as u16,
            ema_price_fp: self.oracle_ema_price_fp,
            last_hedge_ema_price_fp: self.oracle_ema_price_fp,
            oracle_price_fp: self.oracle_price_fp,
            oracle_conf_fp: self.oracle_conf_fp,
            oracle_publish_time: self.oracle_publish_time,
            oracle_ok: self.oracle_ok,
            oracle_degraded: self.oracle_degraded,
            target_delta_bps: self.target_delta_bps,
            beta_fp: self.lst_beta_fp,
            expected_carry_bps: self.carry() as i32,
            config_version: self.config_version,
            config_hash: self.config_hash,
        }
    }
}

/// Slots since `earlier`; a slot before it counts as the longest wait.
fn slots_since(earlier: u64, slot: u64) -> (d: u64)
    ensures
        d == VaultState::slots_since(earlier, slot),
{
    if slot >= earlier {
        slot - earlier
    } else {
        u64::MAX
    }
}

/// Requests a hedge adjustment at `slot`.
///
/// The request is admitted when the vault runs, an EMA price is stored, the
/// minimum interval has passed and the drift reaches the band (or, while the
/// oracle is degraded, the extreme-drift threshold). An admitted request
/// reports the delta-neutral target and the gap to the current hedge.
pub fn request_hedge(state: &mut VaultState, slot: u64) -> (r: Result<
    HedgeRequestOutcome,
    ErrorCode,
>)
    ensures
        match old(state).request_refusal(slot) {
            Some(e) => r == Err::<HedgeRequestOutcome, ErrorCode>(e) && *final(state) == *old(
                state,
            ),
            None => {
                &&& *final(state) == old(state).after_request(slot)
                &&& r == Ok::<HedgeRequestOutcome, ErrorCode>(
                    HedgeRequestOutcome {
                        missed: if old(state).request_timed_out(slot) {
                            Some(old(state).missed_event(slot))
                        } else {
                            None
                        },
                        requested: old(state).requested_event(slot),
                    },
                )
            },
        },
{
    if state.paused {
        return Err(ErrorCode::Paused);
    }
    let elapsed = slots_since(state.last_hedge_slot, slot);
    let interval_ok = elapsed >= state.min_hedge_interval_slots;
    if state.oracle_ema_price_fp <= 0 {
        return Err(ErrorCode::OracleNotReady);
    }
    let drift = match compute_price_drift_bps(
        state.oracle_ema_price_fp,
        state.last_hedge_ema_price_fp,
    ) {
        Ok(d) => d,
        Err(e) => {
            return Err(e);
        },
    };
    let drift_ok = drift >= state.band_bps;
    if !interval_ok {
        return Err(ErrorCode::HedgeTooSoon);
    }
    if state.oracle_degraded {
        if drift < state.extreme_drift_bps {
            return Err(ErrorCode::OracleDegradedHedgeBlocked);
        }
    } else if !drift_ok {
        return Err(ErrorCode::DriftNotMet);
    }
    let sizing_price_fp = if state.oracle_ok && state.oracle_price_fp > 0 {
        state.oracle_price_fp
    } else {
        state.oracle_ema_price_fp
    };
    let target = match compute_target_hedge_notional_usd_delta(
        state.staked_sol,
        sizing_price_fp,
        state.target_delta_bps,
        state.lst_beta_fp,
    ) {
        Ok(t) => t,
        Err(e) => {
            return Err(e);
        },
    };
    let delta_gap = match target.checked_sub(state.hedge_notional_usd) {
        Some(g) => g,
        None => {
            return Err(ErrorCode::MathOverflow);
        },
    };
    let code = compute_reason_code(interval_ok, drift_ok);
    let mut missed: Option<HedgeConfirmMissed> = None;
    if state.request_outstanding {
        let since_req = slots_since(state.last_hedge_request_slot, slot);
        if since_req > state.max_confirm_delay_slots {
            state.missed_confirms = state.missed_confirms.saturating_add(1);
            missed =
            Some(
                HedgeConfirmMissed {
                    epoch: state.epoch,
                    slot,
                    request_id: state.last_hedge_request_id,
                    since_request_slots: since_req,
                    missed_confirms: state.missed_confirms,
                },
            );
            state.request_outstanding = false;
        }
    }
    state.last_hedge_slot = slot;
    state.last_hedge_ema_price_fp = state.oracle_ema_price_fp;
    state.last_hedge_request_id = state.last_hedge_request_id.saturating_add(1);
    state.last_hedge_request_slot = slot;
    state.request_outstanding = true;
    let requested = HedgeRequested {
        epoch: state.epoch,
        slot,
        request_id: state.last_hedge_request_id,
        band_bps: state.band_bps,
        min_hedge_interval_slots: state.min_hedge_interval_slots,
        staked_sol: state.staked_sol,
        reserve_sol: state.reserve_sol,
        hedge_notional_usd: state.hedge_notional_usd,
        target_hedge_notional_usd: target,
        delta_gap_usd: delta_gap,
        reason_code: code,
        drift_bps: drift,
        ema_price_fp: state.oracle_ema_price_fp,
        last_hedge_ema_price_fp: state.last_hedge_ema_price_fp,
        oracle_price_fp: state.oracle_price_fp,
        oracle_conf_fp: state.oracle_conf_fp,
        oracle_publish_time: state.oracle_publish_time,
        oracle_ok: state.oracle_ok,
        oracle_degraded: state.oracle_degraded,
        target_delta_bps: state.target_delta_bps,
        beta_fp: state.lst_beta_fp,
        expected_carry_bps: state.expected_carry_bps(),
        config_version: state.config_version,
        config_hash: state.config_hash,
    };
    Ok(HedgeRequestOutcome { missed, requested })
}

impl VaultState {
    /// Slippage of a fill against the reference price.
    pub open spec fn fill_slippage(&self, fill_price_fp: i64) -> int {
        slippage_bps(fill_price_fp as int, self.reference_price() as int)
    }

    /// The running average of the fill slippage after a fill: the new
    /// slippage enters with a weight of 20%.
    pub open spec fn slippage_average_after(&self, fill_price_fp: i64) -> int {
        min_int(
            ewma(self.avg_fill_slippage_bps as int, self.fill_slippage(fill_price_fp), 2000),
            u16::MAX as int,
        )
    }

    /// Why a confirmation is refused, if it is: the checks in the order
    /// pause, role, rate limit, fill price, outstanding request, request
    /// id, hedge cap and leverage, reference price.
    pub open spec fn confirm_refusal(
        &self,
        signer: Address,
        request_id: u64,
        new_hedge_notional_usd: i64,
        fill_price_fp: i64,
    ) -> Option<ErrorCode> {
        if self.paused {
            Some(ErrorCode::Paused)
        } else if !self.may_feed(signer) {
            Some(ErrorCode::Unauthorized)
        } else if self.rate_limit_verdict(signer) is Err {
            Some(self.rate_limit_verdict(signer)->Err_0)
        } else if !(0 < fill_price_fp <= 10_000_000_000_000) {
            Some(ErrorCode::InvalidParams)
        } else if !self.request_outstanding {
            Some(ErrorCode::NoOutstandingRequest)
        } else if request_id != self.last_hedge_request_id {
            Some(ErrorCode::WrongRequestId)
        } else if self.hedge_verdict(new_hedge_notional_usd) is Err {
            Some(self.hedge_verdict(new_hedge_notional_usd)->Err_0)
        } else if self.reference_price() <= 0 {
            Some(ErrorCode::OracleNotReady)
        } else {
            None
        }
    }

    /// The state after a confirmation: the hedge is the confirmed notional,
    /// the slippage average takes the fill in, the request is settled, and
    /// the keeper's heartbeat is noted.
    pub open spec fn after_confirm(
        self,
        signer: Address,
        slot: u64,
        new_hedge_notional_usd: i64,
        fill_price_fp: i64,
    ) -> VaultState {
        (VaultState {
            hedge_notional_usd: new_hedge_notional_usd,
            avg_fill_slippage_bps: self.slippage_average_after(fill_price_fp) as u16,
            last_fill_slot: slot,
            hedge_fill_count: bump_u64(self.hedge_fill_count),
            request_outstanding: false,
            ..self
        }).after_heartbeat(signer, slot)
    }

    /// What is reported of a confirmation.
    pub open spec fn confirmed_event(
        self,
        slot: u64,
        request_id: u64,
        new_hedge_notional_usd: i64,
        fill_price_fp: i64,
    ) -> HedgeConfirmed {
        HedgeConfirmed {
            epoch: self.epoch,
            slot,
            request_id,
            hedge_notional_usd: new_hedge_notional_usd,
            fill_price_fp,
            ref_price_fp: self.reference_price(),
            slippage_bps: self.fill_slippage(fill_price_fp) as u16,
            avg_fill_slippage_bps: self.slippage_average_after(fill_price_fp) as u16,
            hedge_fill_count: bump_u64(self.hedge_fill_count),
        }
    }
}

/// Confirms the execution of the outstanding hedge request.
///
/// Only who may feed the vault can confirm, and only the last request
/// issued. The confirmed notional must pass the absolute cap and the
/// leverage guardrail.
pub fn confirm_hedge(
    state: &mut VaultState,
    signer: &Address,
    slot: u64,
    request_id: u64,
    new_hedge_notional_usd: i64,
    fill_price_fp: i64,
) -> (r: Result<HedgeConfirmed, ErrorCode>)
    ensures
        match old(state).confirm_refusal(
            *signer,
            request_id,
            new_hedge_notional_usd,
            fill_price_fp,
        ) {
            Some(e) => r == Err::<HedgeConfirmed, ErrorCode>(e) && *final(state) == *old(state),
            None => {
                &&& *final(state) == old(state).after_confirm(
                    *signer,
                    slot,
                    new_hedge_notional_usd,
                    fill_price_fp,
                )
                &&& r == Ok::<HedgeConfirmed, ErrorCode>(
                    old(state).confirmed_event(
                        slot,
                        request_id,
                        new_hedge_notional_usd,
                        fill_price_fp,
                    ),
                )
            },
        },
{
    match state.require_not_paused() {
        Ok(()) => {},
        Err(e) => {
            return Err(e);
        },
    }
    match state.require_keeper_feeder(signer) {
        Ok(()) => {},
        Err(e) => {
            return Err(e);
        },
    }
    match state.require_keeper_rate_limit_ok(signer) {
        Ok(()) => {},
        Err(e) => {
            return Err(e);
        },
    }
    if fill_price_fp <= 0 || fill_price_fp > 10_000_000_000_000 {
        return Err(ErrorCode::InvalidParams);
    }
    if !state.request_outstanding {
        return Err(ErrorCode::NoOutstandingRequest);
    }
    if request_id != state.last_hedge_request_id {
        return Err(ErrorCode::WrongRequestId);
    }
    let ref_price_fp = if state.oracle_ok && state.oracle_price_fp > 0 {
        state.oracle_price_fp
    } else {
        state.oracle_ema_price_fp
    };
    let previous_hedge = state.hedge_notional_usd;
    match state.set_hedge_notional_checked(new_hedge_notional_usd) {
        Ok(()) => {},
        Err(e) => {
            return Err(e);
        },
    }
    if ref_price_fp <= 0 {
        state.hedge_notional_usd = previous_hedge;
        return Err(ErrorCode::OracleNotReady);
    }
    let slip_bps = match compute_slippage_bps(fill_price_fp, ref_price_fp) {
        Ok(v) => v,
        Err(e) => {
            state.hedge_notional_usd = previous_hedge;
            return Err(e);
        },
    };
    let average = match ewma_u16(state.avg_fill_slippage_bps, slip_bps, 2000) {
        Ok(v) => v,
        Err(e) => {
            state.hedge_notional_usd = previous_hedge;
            return Err(e);
        },
    };
    state.avg_fill_slippage_bps = average;
    state.last_fill_slot = slot;
    state.hedge_fill_count = state.hedge_fill_count.saturating_add(1);
    state.request_outstanding = false;
    let event = HedgeConfirmed {
        epoch: state.epoch,
        slot,
        request_id,
        hedge_notional_usd: state.hedge_notional_usd,
        fill_price_fp,
        ref_price_fp,
        slippage_bps: slip_bps,
        avg_fill_slippage_bps: state.avg_fill_slippage_bps,
        hedge_fill_count: state.hedge_fill_count,
    };
    let _ = state.bump_keeper_heartbeat_and_updates(signer, slot);
    Ok(event)
}

/// A confirmation that names another request than the last one issued always
/// fails; it fails as a wrong request id whenever the vault runs, the caller
/// passes role and rate limit, the fill price is in range and a request is
/// outstanding.
pub proof fn lemma_wrong_request_id_is_refused(
    s: VaultState,
    signer: Address,
    request_id: u64,
    new_hedge_notional_usd: i64,
    fill_price_fp: i64,
)
    requires
        request_id != s.last_hedge_request_id,
    ensures
        s.confirm_refusal(signer, request_id, new_hedge_notional_usd, fill_price_fp) is Some,
        (!s.paused && s.may_feed(signer) && s.rate_limit_verdict(signer) is Ok && 0 < fill_price_fp
            <= 10_000_000_000_000 && s.request_outstanding) ==> s.confirm_refusal(
            signer,
            request_id,
            new_hedge_notional_usd,
            fill_price_fp,
        ) == Some(ErrorCode::WrongRequestId),
{
}

/// While the oracle is not degraded, a request is admitted only with a drift
/// of at least the band; a smaller drift is refused as such once pause,
/// price and interval allow the request.
pub proof fn lemma_drift_below_band_is_refused(s: VaultState, slot: u64)
    requires
        !s.oracle_degraded,
        s.hedge_drift() < s.band_bps,
    ensures
        s.request_refusal(slot) is Some,
        (!s.paused && s.oracle_ema_price_fp > 0 && s.hedge_interval_ok(slot)) ==> s.request_refusal(
            slot,
        ) == Some(ErrorCode::DriftNotMet),
{
}

} // verus!

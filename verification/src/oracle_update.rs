//! Taking an oracle attempt in: an accepted quote is stored and feeds the
//! return series, a rejected one only sets the circuit breaker.

use vstd::prelude::*;
use pyth_sdk::PriceFeed;
use crate::errors::ErrorCode;
use crate::events::{OracleDegraded, OraclePriceUpdated, OracleReturnRecorded};
use crate::keys::Address;
use crate::oracle::{best_effort_reading, feed_quote, gate_oracle, quote_of_feed, FeedQuote};
use crate::return_series::sample_return;
use crate::state::VaultState;

verus! {

/// Everything an oracle update reports.
#[derive(Clone, Copy, Debug, PartialEq, Eq)]
pub struct OracleUpdateOutcome {
    /// Set where the attempt was rejected.
    pub degraded: Option<OracleDegraded>,
    /// Set where the accepted price was stored as a return sample.
    pub recorded: Option<OracleReturnRecorded>,
    pub updated: OraclePriceUpdated,
}

impl VaultState {
    /// What the oracle gate, as configured, reports of the two candidates at `now_unix_ts`.
    pub open spec fn oracle_reading(
        &self,
        sol_usd: Option<FeedQuote>,
        sol_usdc: Option<FeedQuote>,
        now_unix_ts: i64,
    ) -> Result<(u8, i64, i64, i64, u64, bool, u8), ErrorCode> {
        best_effort_reading(
            self.oracle_feed_choice,
            sol_usd,
            sol_usdc,
            now_unix_ts as int,
            self.max_price_age_seconds as int,
            self.max_confidence_bps as int,
            self.max_price_jump_bps as int,
            self.last_oracle_price_fp as int,
        )
    }

    /// The state with a reading taken in. An accepted quote becomes the
    /// stored quote and the last accepted price, and clears the circuit
    /// breaker. A rejected quote is not stored: it only marks the attempt
    /// as failed and sets the circuit breaker.
    pub open spec fn with_reading(self, reading: (u8, i64, i64, i64, u64, bool, u8)) -> VaultState {
        if reading.5 {
            VaultState {
                oracle_price_fp: reading.1,
                oracle_ema_price_fp: reading.2,
                oracle_conf_fp: reading.3,
                oracle_publish_time: reading.4,
                oracle_ok: true,
                oracle_degraded: false,
                last_oracle_price_fp: reading.1,
                last_oracle_ema_price_fp: reading.2,
                ..self
            }
        } else {
            VaultState { oracle_ok: false, oracle_degraded: true, ..self }
        }
    }

    /// Why an oracle update is refused, if it is: the checks in the order
    /// pause, role, rate limit, reading, return series.
    pub open spec fn oracle_refusal(
        &self,
        signer: Address,
        sol_usd: Option<FeedQuote>,
        sol_usdc: Option<FeedQuote>,
        slot: u64,
        now_unix_ts: i64,
    ) -> Option<ErrorCode> {
        let reading = self.oracle_reading(sol_usd, sol_usdc, now_unix_ts);
        if self.paused {
            Some(ErrorCode::Paused)
        } else if !self.may_feed(signer) {
            Some(ErrorCode::Unauthorized)
        } else if self.rate_limit_verdict(signer) is Err {
            Some(self.rate_limit_verdict(signer)->Err_0)
        } else if reading is Err {
            Some(reading->Err_0)
        } else if reading->Ok_0.5 && self.with_reading(reading->Ok_0).record_outcome(
            slot,
            reading->Ok_0.1,
        ) is Err {
            Some(self.with_reading(reading->Ok_0).record_outcome(slot, reading->Ok_0.1)->Err_0)
        } else {
            None
        }
    }

    /// The state after an admitted oracle update.
    pub open spec fn after_oracle_update(
        self,
        signer: Address,
        sol_usd: Option<FeedQuote>,
        sol_usdc: Option<FeedQuote>,
        slot: u64,
        now_unix_ts: i64,
    ) -> VaultState {
        let reading = self.oracle_reading(sol_usd, sol_usdc, now_unix_ts)->Ok_0;
        let stored = self.with_reading(reading);
        (if reading.5 {
            stored.record_outcome(slot, reading.1)->Ok_0
        } else {
            stored
        }).after_heartbeat(signer, slot)
    }

    /// Everything an admitted oracle update reports.
    pub open spec fn oracle_outcome(
        self,
        signer: Address,
        sol_usd: Option<FeedQuote>,
        sol_usdc: Option<FeedQuote>,
        slot: u64,
        now_unix_ts: i64,
    ) -> OracleUpdateOutcome {
        let reading = self.oracle_reading(sol_usd, sol_usdc, now_unix_ts)->Ok_0;
        let stored = self.with_reading(reading);
        OracleUpdateOutcome {
            degraded: if reading.5 {
                None
            } else {
                Some(
                    OracleDegraded {
                        epoch: self.epoch,
                        slot,
                        feed_used: reading.0,
                        reason_code: reading.6,
                        oracle_publish_time: reading.4,
                    },
                )
            },
            recorded: if reading.5 && stored.stores_sample(slot) {
                Some(stored.recorded_event(slot, reading.1))
            } else {
                None
            },
            updated: OraclePriceUpdated {
                epoch: self.epoch,
                slot,
                feed_used: reading.0,
                oracle_price_fp: reading.1,
                oracle_ema_price_fp: reading.2,
                oracle_conf_fp: reading.3,
                oracle_publish_time: reading.4,
                oracle_ok: reading.5,
                oracle_degraded: !reading.5,
            },
        }
    }
}

/// Takes an oracle attempt in, given the quotes of the two feeds; `None`
/// stands for a feed that could not be read.
///
/// A rejected attempt changes nothing but the flags: it sets the circuit
/// breaker, and its quote goes into the report only. An accepted one is
/// stored, clears the breaker and is offered to the return series, which
/// measures it against the last price that it stored.
pub fn update_oracle_price_from_quotes(
    state: &mut VaultState,
    signer: &Address,
    sol_usd: Option<FeedQuote>,
    sol_usdc: Option<FeedQuote>,
    slot: u64,
    now_unix_ts: i64,
) -> (r: Result<OracleUpdateOutcome, ErrorCode>)
    ensures
        match old(state).oracle_refusal(*signer, sol_usd, sol_usdc, slot, now_unix_ts) {
            Some(e) => r == Err::<OracleUpdateOutcome, ErrorCode>(e) && *final(state) == *old(
                state,
            ),
            None => {
                &&& *final(state) == old(state).after_oracle_update(
                    *signer,
                    sol_usd,
                    sol_usdc,
                    slot,
                    now_unix_ts,
                )
                &&& r == Ok::<OracleUpdateOutcome, ErrorCode>(
                    old(state).oracle_outcome(*signer, sol_usd, sol_usdc, slot, now_unix_ts),
                )
            },
        },
{
    match state.require_not_paused() {
        Ok(()) => {},
        Err(e) => {
            return Err(e);
        },
    }
    match state.require_keeper_feeder(signer) {
        Ok(()) => {},
        Err(e) => {
            return Err(e);
        },
    }
    match state.require_keeper_rate_limit_ok(signer) {
        Ok(()) => {},
        Err(e) => {
            return Err(e);
        },
    }
    let (chosen, spot_price_fp, ema_price_fp, conf_fp, publish_time, ok, reason) = match gate_oracle(
        state.oracle_feed_choice,
        sol_usd,
        sol_usdc,
        now_unix_ts,
        state.max_price_age_seconds,
        state.max_confidence_bps,
        state.max_price_jump_bps,
        state.last_oracle_price_fp,
    ) {
        Ok(reading) => reading,
        Err(e) => {
            return Err(e);
        },
    };
    let mut next: VaultState = *state;
    next.oracle_ok = ok;
    let mut degraded: Option<OracleDegraded> = None;
    let mut recorded: Option<OracleReturnRecorded> = None;
    if !ok {
        next.oracle_degraded = true;
        degraded =
        Some(
            OracleDegraded {
                epoch: next.epoch,
                slot,
                feed_used: chosen,
                reason_code: reason,
                oracle_publish_time: publish_time,
            },
        );
    } else {
        next.oracle_price_fp = spot_price_fp;
        next.oracle_ema_price_fp = ema_price_fp;
        next.oracle_conf_fp = conf_fp;
        next.oracle_publish_time = publish_time;
        next.oracle_degraded = false;
        next.last_oracle_price_fp = spot_price_fp;
        next.last_oracle_ema_price_fp = ema_price_fp;
        recorded =
        match next.try_record_oracle_return(slot, spot_price_fp) {
            Ok(sample) => sample,
            Err(e) => {
                return Err(e);
            },
        };
    }
    let updated = OraclePriceUpdated {
        epoch: next.epoch,
        slot,
        feed_used: chosen,
        oracle_price_fp: spot_price_fp,
        oracle_ema_price_fp: ema_price_fp,
        oracle_conf_fp: conf_fp,
        oracle_publish_time: publish_time,
        oracle_ok: next.oracle_ok,
        oracle_degraded: next.oracle_degraded,
    };
    let _ = next.bump_keeper_heartbeat_and_updates(signer, slot);
    *state = next;
    Ok(OracleUpdateOutcome { degraded, recorded, updated })
}

/// The quote that a feed holds, if there is a feed.
pub open spec fn quote_of(feed: Option<&PriceFeed>) -> Option<FeedQuote> {
    match feed {
        Some(f) => Some(feed_quote(*f)),
        None => None,
    }
}

/// Takes an oracle attempt in, given the two feeds; `None` stands for a feed
/// that could not be loaded.
pub fn update_oracle_price(
    state: &mut VaultState,
    signer: &Address,
    sol_usd: Option<&PriceFeed>,
    sol_usdc: Option<&PriceFeed>,
    slot: u64,
    now_unix_ts: i64,
) -> (r: Result<OracleUpdateOutcome, ErrorCode>)
    ensures
        match old(state).oracle_refusal(
            *signer,
            quote_of(sol_usd),
            quote_of(sol_usdc),
            slot,
            now_unix_ts,
        ) {
            Some(e) => r == Err::<OracleUpdateOutcome, ErrorCode>(e) && *final(state) == *old(
                state,
            ),
            None => {
                &&& *final(state) == old(state).after_oracle_update(
                    *signer,
                    quote_of(sol_usd),
                    quote_of(sol_usdc),
                    slot,
                    now_unix_ts,
                )
                &&& r == Ok::<OracleUpdateOutcome, ErrorCode>(
                    old(state).oracle_outcome(
                        *signer,
                        quote_of(sol_usd),
                        quote_of(sol_usdc),
                        slot,
                        now_unix_ts,
                    ),
                )
            },
        },
{
    let first = quote_of_feed(sol_usd);
    let second = quote_of_feed(sol_usdc);
    update_oracle_price_from_quotes(state, signer, first, second, slot, now_unix_ts)
}

/// After an oracle update the circuit breaker is set exactly when the
/// attempt was rejected, and the last accepted prices are those of the
/// attempt exactly when it was accepted.
pub proof fn lemma_breaker_follows_last_attempt(
    s: VaultState,
    signer: Address,
    sol_usd: Option<FeedQuote>,
    sol_usdc: Option<FeedQuote>,
    slot: u64,
    now_unix_ts: i64,
)
    requires
        s.oracle_refusal(signer, sol_usd, sol_usdc, slot, now_unix_ts) is None,
    ensures
        ({
            let next = s.after_oracle_update(signer, sol_usd, sol_usdc, slot, now_unix_ts);
            let reading = s.oracle_reading(sol_usd, sol_usdc, now_unix_ts)->Ok_0;
            &&& next.oracle_ok == reading.5
            &&& next.oracle_degraded == !reading.5
            &&& reading.5 ==> next.last_oracle_price_fp == reading.1
                && next.last_oracle_ema_price_fp == reading.2
            &&& !reading.5 ==> next.last_oracle_price_fp == s.last_oracle_price_fp
                && next.last_oracle_ema_price_fp == s.last_oracle_ema_price_fp
        }),
{
}

/// A rejected attempt leaves the stored quote and the return series as they
/// were: only the two flags and the keeper's heartbeat change.
pub proof fn lemma_rejected_quote_is_not_stored(
    s: VaultState,
    signer: Address,
    sol_usd: Option<FeedQuote>,
    sol_usdc: Option<FeedQuote>,
    slot: u64,
    now_unix_ts: i64,
)
    requires
        s.oracle_refusal(signer, sol_usd, sol_usdc, slot, now_unix_ts) is None,
        !s.oracle_reading(sol_usd, sol_usdc, now_unix_ts)->Ok_0.5,
    ensures
        s.after_oracle_update(signer, sol_usd, sol_usdc, slot, now_unix_ts) == (VaultState {
            oracle_ok: false,
            oracle_degraded: true,
            ..s
        }).after_heartbeat(signer, slot),
        ({
            let next = s.after_oracle_update(signer, sol_usd, sol_usdc, slot, now_unix_ts);
            &&& next.oracle_price_fp == s.oracle_price_fp
            &&& next.oracle_ema_price_fp == s.oracle_ema_price_fp
            &&& next.oracle_conf_fp == s.oracle_conf_fp
            &&& next.oracle_publish_time == s.oracle_publish_time
            &&& next.returns_ring == s.returns_ring
            &&& next.returns_idx == s.returns_idx
            &&& next.nonzero_samples == s.nonzero_samples
            &&& next.last_return_slot == s.last_return_slot
            &&& next.return_baseline_price_fp == s.return_baseline_price_fp
            &&& next.ewma_var_fp2 == s.ewma_var_fp2
        }),
{
}

/// An accepted price is measured against the last stored observation: once
/// the spacing gate is open and a baseline exists, the sample written under
/// the cursor is the clamped return from the baseline to the accepted
/// price, and the accepted price is the new baseline.
pub proof fn lemma_accepted_price_is_sampled(
    s: VaultState,
    signer: Address,
    sol_usd: Option<FeedQuote>,
    sol_usdc: Option<FeedQuote>,
    slot: u64,
    now_unix_ts: i64,
)
    requires
        s.oracle_refusal(signer, sol_usd, sol_usdc, slot, now_unix_ts) is None,
        s.oracle_reading(sol_usd, sol_usdc, now_unix_ts)->Ok_0.5,
        s.stores_sample(slot),
    ensures
        ({
            let next = s.after_oracle_update(signer, sol_usd, sol_usdc, slot, now_unix_ts);
            let price = s.oracle_reading(sol_usd, sol_usdc, now_unix_ts)->Ok_0.1;
            &&& next.returns_ring@[s.ring_slot()] == sample_return(
                price as int,
                s.return_baseline_price_fp as int,
            )
            &&& next.return_baseline_price_fp == price
            &&& next.last_return_slot == slot
        }),
{
    broadcast use vstd::array::group_array_axioms;

}

} // verus!

//! The return series: a ring of clamped price returns, fed by accepted oracle
//! prices and rate-limited by a minimum spacing between samples.

use vstd::prelude::*;
use vstd::array::spec_array_update;
use crate::errors::ErrorCode;
use crate::events::OracleReturnRecorded;
use crate::fixed_point::{ewma, ewma_update_u128, min_int, trunc_div};
use crate::state::{count_nonzero, VaultState};
use crate::volatility::VolMode;

verus! {

/// The return from `baseline` to `price`, scaled by a million, rounded toward
/// zero and limited to 25% either way.
pub open spec fn sample_return(price: int, baseline: int) -> int {
    let raw = trunc_div((price - baseline) * 1000000, baseline);
    if raw > 250000 {
        250000
    } else if raw < -250000 {
        -250000
    } else {
        raw
    }
}

/// The square of a return, limited to the variance ceiling.
pub open spec fn capped_square(ret: int) -> int {
    min_int(ret * ret, 10_000_000_000_000_000)
}

impl VaultState {
    /// Slots since the last stored sample; a slot before it counts as none.
    pub open spec fn slots_since_last_sample(&self, slot: u64) -> int {
        if slot >= self.last_return_slot {
            slot - self.last_return_slot
        } else {
            0
        }
    }

    /// Whether the spacing gate turns a price at `slot` away: a sample was
    /// stored before, and `slot` lies before it or fewer slots than the
    /// minimum spacing after it.
    pub open spec fn spacing_gate_closed(&self, slot: u64) -> bool {
        self.last_return_slot != 0 && (slot < self.last_return_slot
            || self.slots_since_last_sample(slot) < self.min_return_spacing_slots)
    }

    /// The ring slot under the write cursor.
    pub open spec fn ring_slot(&self) -> int {
        (self.returns_idx as int) % 32
    }

    /// The non-zero counter after `ret` replaces the entry under the cursor.
    pub open spec fn counter_after(&self, ret: int) -> int {
        let prev = self.returns_ring@[self.ring_slot()];
        if prev == 0 && ret != 0 {
            self.nonzero_samples + 1
        } else if prev != 0 && ret == 0 {
            self.nonzero_samples - 1
        } else {
            self.nonzero_samples as int
        }
    }

    /// Whether the running variance can take the sample `ret`.
    pub open spec fn variance_update_fits(&self, ret: int) -> bool {
        &&& self.ewma_alpha_bps <= 10000
        &&& self.ewma_var_fp2 * (10000 - self.ewma_alpha_bps) <= u128::MAX
        &&& capped_square(ret) * self.ewma_alpha_bps <= u128::MAX
    }

    /// The running variance after the sample `ret`; only the
    /// exponentially weighted mode maintains it.
    pub open spec fn variance_after(&self, ret: int) -> int {
        if self.vol_mode == VolMode::Ewma {
            ewma(self.ewma_var_fp2 as int, capped_square(ret), self.ewma_alpha_bps as int)
        } else {
            self.ewma_var_fp2 as int
        }
    }

    /// Whether a price at `slot` is stored as a sample: the spacing gate is
    /// open and there is a baseline to measure it against.
    pub open spec fn stores_sample(&self, slot: u64) -> bool {
        !self.spacing_gate_closed(slot) && self.return_baseline_price_fp > 0
    }

    /// The state after an accepted price arrives at `slot`.
    ///
    /// A price that the spacing gate turns away changes nothing. The first
    /// price ever becomes the baseline and produces no sample. Any other
    /// price is measured against the baseline, written under the cursor, and
    /// becomes the new baseline.
    pub open spec fn record_outcome(self, slot: u64, price_fp: i64) -> Result<VaultState, ErrorCode> {
        if self.spacing_gate_closed(slot) {
            Ok(self)
        } else if self.return_baseline_price_fp <= 0 {
            Ok(VaultState { return_baseline_price_fp: price_fp, last_return_slot: slot, ..self })
        } else {
            let ret = sample_return(price_fp as int, self.return_baseline_price_fp as int);
            let counter = self.counter_after(ret);
            if counter < 0 || counter > u16::MAX {
                Err(ErrorCode::MathOverflow)
            } else if self.vol_mode == VolMode::Ewma && !self.variance_update_fits(ret) {
                Err(ErrorCode::MathOverflow)
            } else {
                Ok(
                    VaultState {
                        returns_ring: spec_array_update(
                            self.returns_ring,
                            self.ring_slot(),
                            ret as i32,
                        ),
                        returns_idx: ((self.returns_idx + 1) % 256) as u8,
                        nonzero_samples: counter as u16,
                        ewma_var_fp2: self.variance_after(ret) as u128,
                        last_return_slot: slot,
                        return_baseline_price_fp: price_fp,
                        ..self
                    },
                )
            }
        }
    }

    /// What is reported of a stored sample.
    pub open spec fn recorded_event(self, slot: u64, price_fp: i64) -> OracleReturnRecorded {
        let ret = sample_return(price_fp as int, self.return_baseline_price_fp as int);
        OracleReturnRecorded {
            epoch: self.epoch,
            slot,
            idx: self.ring_slot() as u8,
            return_fp: ret as i32,
            nonzero_samples: self.counter_after(ret) as u16,
            oracle_price_fp: price_fp,
        }
    }

    /// Takes an accepted price into the return series.
    ///
    /// Returns the stored sample, or `None` where the price was turned away
    /// by the spacing gate or became the first baseline.
    pub fn try_record_oracle_return(&mut self, slot: u64, price_fp: i64) -> (r: Result<
        Option<OracleReturnRecorded>,
        ErrorCode,
    >)
        ensures
            match old(self).record_outcome(slot, price_fp) {
                Ok(next) => {
                    &&& *final(self) == next
                    &&& r == Ok::<Option<OracleReturnRecorded>, ErrorCode>(
                        if old(self).stores_sample(slot) {
                            Some(old(self).recorded_event(slot, price_fp))
                        } else {
                            None
                        },
                    )
                },
                Err(e) => {
                    &&& *final(self) == *old(self)
                    &&& r == Err::<Option<OracleReturnRecorded>, ErrorCode>(e)
                },
            },
            old(self).spacing_gate_closed(slot) ==> *final(self) == *old(self),
    {
        if self.last_return_slot != 0 {
            if slot < self.last_return_slot {
                return Ok(None);
            }
            let elapsed: u64 = slot - self.last_return_slot;
            if elapsed < self.min_return_spacing_slots {
                return Ok(None);
            }
        }
        if self.return_baseline_price_fp <= 0 {
            self.return_baseline_price_fp = price_fp;
            self.last_return_slot = slot;
            return Ok(None);
        }
        let p = price_fp as i128;
        let p0 = self.return_baseline_price_fp as i128;
        let diff: i128 = p - p0;
        let raw: i128 = diff * 1_000_000 / p0;
        let ret: i128 = if raw > 250_000 {
            250_000
        } else if raw < -250_000 {
            -250_000
        } else {
            raw
        };
        let ret_i32 = ret as i32;
        let idx: usize = (self.returns_idx as usize) % 32;
        let prev = self.returns_ring[idx];
        let counter: u16 = if prev == 0 && ret_i32 != 0 {
            match self.nonzero_samples.checked_add(1) {
                Some(c) => c,
                None => {
                    return Err(ErrorCode::MathOverflow);
                },
            }
        } else if prev != 0 && ret_i32 == 0 {
            match self.nonzero_samples.checked_sub(1) {
                Some(c) => c,
                None => {
                    return Err(ErrorCode::MathOverflow);
                },
            }
        } else {
            self.nonzero_samples
        };
        let mut variance = self.ewma_var_fp2;
        if self.vol_mode.code() == VolMode::Ewma.code() {
            let r_abs: u128 = if ret_i32 < 0 {
                (-(ret_i32 as i64)) as u128
            } else {
                ret_i32 as u128
            };
            assert(r_abs * r_abs == ret * ret && r_abs * r_abs <= 250_000 * 250_000)
                by (nonlinear_arith)
                requires
                    r_abs == ret || r_abs == -ret,
                    0 <= r_abs <= 250_000,
            ;
            let r2: u128 = r_abs * r_abs;
            let r2_capped: u128 = if r2 > 10_000_000_000_000_000 {
                10_000_000_000_000_000
            } else {
                r2
            };
            variance = match ewma_update_u128(self.ewma_var_fp2, r2_capped, self.ewma_alpha_bps) {
                Ok(v) => v,
                Err(e) => {
                    return Err(e);
                },
            };
        }
        self.returns_ring[idx] = ret_i32;
        self.returns_idx = self.returns_idx.wrapping_add(1);
        self.nonzero_samples = counter;
        self.ewma_var_fp2 = variance;
        self.last_return_slot = slot;
        self.return_baseline_price_fp = price_fp;
        proof {
            let next = old(self).record_outcome(slot, price_fp)->Ok_0;
            assert(ret == sample_return(
                price_fp as int,
                old(self).return_baseline_price_fp as int,
            ));
            assert(self.ewma_var_fp2 == next.ewma_var_fp2);
            assert(self.returns_ring =~= next.returns_ring);
        }
        Ok(
            Some(
                OracleReturnRecorded {
                    epoch: self.epoch,
                    slot,
                    idx: idx as u8,
                    return_fp: ret_i32,
                    nonzero_samples: self.nonzero_samples,
                    oracle_price_fp: price_fp,
                },
            ),
        )
    }
}

/// Replacing one entry moves the count of non-zero entries by what the old
/// and the new entry contribute; the count never exceeds the length.
pub proof fn lemma_count_nonzero_update(s: Seq<i32>, i: int, v: i32)
    requires
        0 <= i < s.len(),
    ensures
        count_nonzero(s.update(i, v)) == count_nonzero(s) - (if s[i] != 0 {
            1int
        } else {
            0int
        }) + (if v != 0 {
            1int
        } else {
            0int
        }),
        count_nonzero(s) <= s.len(),
    decreases s.len(),
{
    if i == s.len() - 1 {
        assert(s.update(i, v).drop_last() =~= s.drop_last());
        lemma_count_nonzero_bound(s.drop_last());
    } else {
        lemma_count_nonzero_update(s.drop_last(), i, v);
        assert(s.update(i, v).drop_last() =~= s.drop_last().update(i, v));
    }
}

/// A sequence has at most as many non-zero entries as entries.
pub proof fn lemma_count_nonzero_bound(s: Seq<i32>)
    ensures
        count_nonzero(s) <= s.len(),
    decreases s.len(),
{
    if s.len() > 0 {
        lemma_count_nonzero_bound(s.drop_last());
    }
}

/// A ring of zeros has no non-zero entry.
pub proof fn lemma_count_nonzero_of_zeros(s: Seq<i32>)
    requires
        forall|i: int| 0 <= i < s.len() ==> s[i] == 0,
    ensures
        count_nonzero(s) == 0,
    decreases s.len(),
{
    if s.len() > 0 {
        lemma_count_nonzero_of_zeros(s.drop_last());
    }
}

/// One record keeps the non-zero counter exact. With an exact counter the
/// only failure left is a running variance that does not fit.
pub proof fn lemma_record_keeps_counter(s: VaultState, slot: u64, price_fp: i64)
    requires
        s.counter_consistent(),
    ensures
        match s.record_outcome(slot, price_fp) {
            Ok(next) => next.counter_consistent(),
            Err(_) => s.vol_mode == VolMode::Ewma && !s.variance_update_fits(
                sample_return(price_fp as int, s.return_baseline_price_fp as int),
            ),
        },
{
    broadcast use vstd::array::group_array_axioms;

    if !s.spacing_gate_closed(slot) && s.return_baseline_price_fp > 0 {
        let ret = sample_return(price_fp as int, s.return_baseline_price_fp as int);
        lemma_count_nonzero_update(s.returns_ring@, s.ring_slot(), ret as i32);
    }
}

/// The state after a sequence of accepted prices, each given as slot and
/// price; a record that fails leaves the state as it was.
pub open spec fn after_records(s: VaultState, calls: Seq<(u64, i64)>) -> VaultState
    decreases calls.len(),
{
    if calls.len() == 0 {
        s
    } else {
        let before = after_records(s, calls.drop_last());
        match before.record_outcome(calls.last().0, calls.last().1) {
            Ok(next) => next,
            Err(_) => before,
        }
    }
}

/// After any sequence of records the non-zero counter equals the number of
/// ring entries that are not zero.
pub proof fn lemma_counter_exact_after_records(s: VaultState, calls: Seq<(u64, i64)>)
    requires
        s.counter_consistent(),
    ensures
        after_records(s, calls).counter_consistent(),
    decreases calls.len(),
{
    if calls.len() > 0 {
        lemma_counter_exact_after_records(s, calls.drop_last());
        lemma_record_keeps_counter(
            after_records(s, calls.drop_last()),
            calls.last().0,
            calls.last().1,
        );
    }
}

/// The slots at which the series took a price in, in order, over a sequence
/// of records: those that the spacing gate let through and that did not fail.
pub open spec fn stored_slots(s: VaultState, calls: Seq<(u64, i64)>) -> Seq<u64>
    decreases calls.len(),
{
    if calls.len() == 0 {
        Seq::empty()
    } else {
        let before = after_records(s, calls.drop_last());
        let earlier = stored_slots(s, calls.drop_last());
        if !before.spacing_gate_closed(calls.last().0) && before.record_outcome(
            calls.last().0,
            calls.last().1,
        ) is Ok {
            earlier.push(calls.last().0)
        } else {
            earlier
        }
    }
}

/// Each slot lies at least `spacing` after the one before it. Slot zero
/// stands for "no sample yet" and bounds nothing.
pub open spec fn spaced(slots: Seq<u64>, spacing: u64) -> bool {
    forall|i: int|
        0 <= i < slots.len() - 1 && slots[i] != 0 ==> #[trigger] slots[i + 1] >= slots[i] + spacing
}

/// Over any sequence of records, no two consecutive stored prices are closer
/// than the configured spacing, the last one stored before the sequence
/// included; and the state remembers the slot of the last one.
pub proof fn lemma_stored_samples_are_spaced(s: VaultState, calls: Seq<(u64, i64)>)
    ensures
        spaced(seq![s.last_return_slot] + stored_slots(s, calls), s.min_return_spacing_slots),
        after_records(s, calls).last_return_slot == (seq![s.last_return_slot] + stored_slots(
            s,
            calls,
        )).last(),
        after_records(s, calls).min_return_spacing_slots == s.min_return_spacing_slots,
    decreases calls.len(),
{
    if calls.len() > 0 {
        lemma_stored_samples_are_spaced(s, calls.drop_last());
        let before = after_records(s, calls.drop_last());
        let earlier = seq![s.last_return_slot] + stored_slots(s, calls.drop_last());
        let slot = calls.last().0;
        if !before.spacing_gate_closed(slot) && before.record_outcome(slot, calls.last().1) is Ok {
            let all = seq![s.last_return_slot] + stored_slots(s, calls);
            assert(all =~= earlier.push(slot));
            assert forall|i: int| 0 <= i < all.len() - 1 && all[i] != 0 implies #[trigger] all[i
                + 1] >= all[i] + s.min_return_spacing_slots by {
                if i < earlier.len() - 1 {
                    assert(earlier[i + 1] >= earlier[i] + s.min_return_spacing_slots);
                }
            }
        }
    }
}

/// A price that the spacing gate turns away leaves the state as it was.
pub proof fn lemma_gated_record_is_noop(s: VaultState, slot: u64, price_fp: i64)
    requires
        s.spacing_gate_closed(slot),
    ensures
        s.record_outcome(slot, price_fp) == Ok::<VaultState, ErrorCode>(s),
{
}

} // verus!

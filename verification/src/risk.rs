//! Guardrails and valuations of the position: the pause switch, the hedge cap
//! and leverage guardrail, the reserve ratio, the expected carry and the net
//! asset value.

use vstd::prelude::*;
use crate::errors::ErrorCode;
use crate::fixed_point::abs_int;
use crate::state::VaultState;

verus! {

/// `i32::saturating_add` of the standard library: the sum, or the bound of
/// the type that the sum lies beyond.
pub assume_specification[ i32::saturating_add ](x: i32, y: i32) -> (r: i32)
    ensures
        r == saturate_i32(x + y),
;

/// `i32::saturating_sub` of the standard library: the difference, or the
/// bound of the type that the difference lies beyond.
pub assume_specification[ i32::saturating_sub ](x: i32, y: i32) -> (r: i32)
    ensures
        r == saturate_i32(x - y),
;

/// An integer limited to the range of `i32`.
pub open spec fn saturate_i32(x: int) -> int {
    if x > i32::MAX {
        i32::MAX as int
    } else if x < i32::MIN {
        i32::MIN as int
    } else {
        x
    }
}

/// Net expected yield in basis points per day: staking plus funding income
/// less the borrow cost, each step saturating.
pub open spec fn expected_carry(staking: int, funding: int, borrow: int) -> int {
    saturate_i32(saturate_i32(staking + funding) - borrow)
}

/// Value of `units` at a fixed-point price, in whole units of the quote currency.
pub open spec fn position_value(units: int, price_fp: int) -> int {
    units * price_fp / 1000000
}

/// The valuation of a holding: it needs a valid price, one above zero, and
/// a value within 63 bits.
pub open spec fn valuation(units: int, price_fp: int) -> Result<i64, ErrorCode> {
    if price_fp <= 0 {
        Err(ErrorCode::OracleNotReady)
    } else if position_value(units, price_fp) > i64::MAX {
        Err(ErrorCode::MathOverflow)
    } else {
        Ok(position_value(units, price_fp) as i64)
    }
}

/// The leverage guardrail: without a stake there is no hedge; with a stake
/// the hedge is at most `max_per_sol_fp` per staked unit.
pub open spec fn leverage_check(staked_sol: int, hedge: int, max_per_sol_fp: int) -> Result<
    (),
    ErrorCode,
> {
    if staked_sol == 0 {
        if hedge == 0 {
            Ok(())
        } else {
            Err(ErrorCode::LeverageExceeded)
        }
    } else if max_per_sol_fp <= 0 {
        Err(ErrorCode::InvalidParams)
    } else if abs_int(hedge) <= staked_sol * max_per_sol_fp / 1000000 {
        Ok(())
    } else {
        Err(ErrorCode::LeverageExceeded)
    }
}

/// The reserve that a stake asks for.
pub open spec fn required_reserve(staked_sol: int, min_reserve_bps: int) -> int {
    staked_sol * min_reserve_bps / 10000
}

/// Values a holding at a price.
fn value_at(units: u64, price_fp: i64) -> (r: Result<i64, ErrorCode>)
    ensures
        r == valuation(units as int, price_fp as int),
{
    if price_fp <= 0 {
        return Err(ErrorCode::OracleNotReady);
    }
    let v = wide_value(units, price_fp);
    if v > 0x7fff_ffff_ffff_ffff {
        Err(ErrorCode::MathOverflow)
    } else {
        Ok(v as i64)
    }
}

/// Value of a holding at a price above zero, in 128 bits.
fn wide_value(units: u64, price_fp: i64) -> (v: i128)
    requires
        price_fp > 0,
    ensures
        v == position_value(units as int, price_fp as int),
        0 <= v <= 0x1000_0000_0000_0000_0000_0000_0000,
{
    assert(0 <= (units as i128) * (price_fp as i128) <= 0xffff_ffff_ffff_ffff
        * 0x7fff_ffff_ffff_ffff) by (nonlinear_arith)
        requires
            0 <= units <= 0xffff_ffff_ffff_ffff,
            0 < price_fp <= 0x7fff_ffff_ffff_ffff,
    ;
    (units as i128) * (price_fp as i128) / 1_000_000
}

impl VaultState {
    /// Whether a spot price is there to value the position at: the stored
    /// spot price is the last accepted one, and it is valid once a quote
    /// has been accepted.
    pub open spec fn spot_price_valid(&self) -> bool {
        self.oracle_price_fp > 0
    }

    /// The sum that the net asset value is made of: stake and reserve at the
    /// last accepted spot price, the unrealized result of the hedge (none,
    /// the hedge is not marked to market), and the accrued staking yield.
    pub open spec fn nav_sum(&self) -> int {
        position_value(self.staked_sol as int, self.oracle_price_fp as int) + position_value(
            self.reserve_sol as int,
            self.oracle_price_fp as int,
        ) + 0 + self.staking_accrued_usd
    }

    /// The net asset value: it needs a valid spot price and a sum within 64
    /// signed bits.
    pub open spec fn nav(&self) -> Result<i64, ErrorCode> {
        if !self.spot_price_valid() {
            Err(ErrorCode::OracleNotReady)
        } else if !(i64::MIN <= self.nav_sum() <= i64::MAX) {
            Err(ErrorCode::MathOverflow)
        } else {
            Ok(self.nav_sum() as i64)
        }
    }

    /// The verdict of the leverage guardrail on the current hedge.
    pub open spec fn leverage_verdict(&self) -> Result<(), ErrorCode> {
        leverage_check(
            self.staked_sol as int,
            self.hedge_notional_usd as int,
            self.max_hedge_per_sol_usd_fp as int,
        )
    }

    /// Whether the reserve covers the configured share of the stake.
    pub open spec fn reserve_sufficient(&self) -> bool {
        self.reserve_sol >= required_reserve(self.staked_sol as int, self.min_reserve_bps as int)
    }

    /// The verdict on a new hedge notional: the absolute cap first, then the
    /// leverage guardrail.
    pub open spec fn hedge_verdict(&self, hedge: i64) -> Result<(), ErrorCode> {
        if abs_int(hedge as int) > self.max_abs_hedge_notional_usd {
            Err(ErrorCode::CapExceeded)
        } else {
            leverage_check(
                self.staked_sol as int,
                hedge as int,
                self.max_hedge_per_sol_usd_fp as int,
            )
        }
    }

    /// The expected carry of the position, in basis points per day.
    pub open spec fn carry(&self) -> int {
        expected_carry(
            self.staking_bps_per_day as int,
            self.funding_bps_per_day as int,
            self.borrow_bps_per_day as int,
        )
    }

    /// Fails while the vault is paused.
    pub fn require_not_paused(&self) -> (r: Result<(), ErrorCode>)
        ensures
            r == if self.paused {
                Err::<(), ErrorCode>(ErrorCode::Paused)
            } else {
                Ok::<(), ErrorCode>(())
            },
    {
        if self.paused {
            return Err(ErrorCode::Paused);
        }
        Ok(())
    }

    /// Sets the hedge notional if it passes the absolute cap and the leverage
    /// guardrail.
    pub fn set_hedge_notional_checked(&mut self, hedge: i64) -> (r: Result<(), ErrorCode>)
        ensures
            r == old(self).hedge_verdict(hedge),
            r is Ok ==> *final(self) == (VaultState { hedge_notional_usd: hedge, ..*old(self) }),
            r is Err ==> *final(self) == *old(self),
    {
        let magnitude: i128 = if hedge < 0 {
            -(hedge as i128)
        } else {
            hedge as i128
        };
        if magnitude > (self.max_abs_hedge_notional_usd as i128) {
            return Err(ErrorCode::CapExceeded);
        }
        let previous = self.hedge_notional_usd;
        self.hedge_notional_usd = hedge;
        match self.enforce_leverage_guardrail() {
            Ok(()) => Ok(()),
            Err(e) => {
                self.hedge_notional_usd = previous;
                Err(e)
            },
        }
    }

    /// Checks the current hedge against the leverage guardrail.
    pub fn enforce_leverage_guardrail(&self) -> (r: Result<(), ErrorCode>)
        ensures
            r == self.leverage_verdict(),
    {
        if self.staked_sol == 0 {
            if self.hedge_notional_usd != 0 {
                return Err(ErrorCode::LeverageExceeded);
            }
            return Ok(());
        }
        let max_per_sol = self.max_hedge_per_sol_usd_fp as i128;
        if max_per_sol <= 0 {
            return Err(ErrorCode::InvalidParams);
        }
        let lhs: i128 = if self.hedge_notional_usd < 0 {
            -(self.hedge_notional_usd as i128)
        } else {
            self.hedge_notional_usd as i128
        };
        assert(0 <= (self.staked_sol as i128) * max_per_sol <= 0xffff_ffff_ffff_ffff
            * 0x7fff_ffff_ffff_ffff) by (nonlinear_arith)
            requires
                0 <= self.staked_sol <= 0xffff_ffff_ffff_ffff,
                0 < max_per_sol <= 0x7fff_ffff_ffff_ffff,
        ;
        let rhs: i128 = (self.staked_sol as i128) * max_per_sol / 1_000_000;
        if lhs > rhs {
            return Err(ErrorCode::LeverageExceeded);
        }
        Ok(())
    }

    /// Checks that the reserve covers the configured share of the stake.
    pub fn enforce_reserve_ratio(&self) -> (r: Result<(), ErrorCode>)
        ensures
            r == if self.reserve_sufficient() {
                Ok::<(), ErrorCode>(())
            } else {
                Err::<(), ErrorCode>(ErrorCode::ReserveTooLow)
            },
    {
        assert(0 <= (self.staked_sol as u128) * (self.min_reserve_bps as u128)
            <= 0xffff_ffff_ffff_ffff * 0xffff) by (nonlinear_arith)
            requires
                0 <= self.staked_sol <= 0xffff_ffff_ffff_ffff,
                0 <= self.min_reserve_bps <= 0xffff,
        ;
        let required: u128 = (self.staked_sol as u128) * (self.min_reserve_bps as u128) / 10_000;
        if (self.reserve_sol as u128) < required {
            return Err(ErrorCode::ReserveTooLow);
        }
        Ok(())
    }

    /// The expected carry of the position, in basis points per day.
    pub fn expected_carry_bps(&self) -> (c: i32)
        ensures
            c == self.carry(),
    {
        self.staking_bps_per_day.saturating_add(self.funding_bps_per_day).saturating_sub(
            self.borrow_bps_per_day,
        )
    }

    /// Value of the stake at the stored spot price.
    pub fn staked_value_usd(&self) -> (r: Result<i64, ErrorCode>)
        ensures
            r == valuation(self.staked_sol as int, self.oracle_price_fp as int),
    {
        value_at(self.staked_sol, self.oracle_price_fp)
    }

    /// Value of the reserve at the stored spot price.
    pub fn reserve_value_usd(&self) -> (r: Result<i64, ErrorCode>)
        ensures
            r == valuation(self.reserve_sol as int, self.oracle_price_fp as int),
    {
        value_at(self.reserve_sol, self.oracle_price_fp)
    }

    /// Unrealized result of the hedge. The hedge is not marked to market, so
    /// this is zero.
    pub fn unrealized_pnl_usd(&self) -> (r: Result<i64, ErrorCode>)
        ensures
            r == Ok::<i64, ErrorCode>(0i64),
    {
        Ok(0)
    }

    /// The net asset value of the position.
    pub fn compute_nav_usd(&self) -> (r: Result<i64, ErrorCode>)
        ensures
            r == self.nav(),
    {
        if self.oracle_price_fp <= 0 {
            return Err(ErrorCode::OracleNotReady);
        }
        let staked = wide_value(self.staked_sol, self.oracle_price_fp);
        let reserve = wide_value(self.reserve_sol, self.oracle_price_fp);
        let pnl: i128 = match self.unrealized_pnl_usd() {
            Ok(v) => v as i128,
            Err(e) => {
                return Err(e);
            },
        };
        let total: i128 = staked + reserve + pnl + (self.staking_accrued_usd as i128);
        if total > 0x7fff_ffff_ffff_ffff || total < -0x8000_0000_0000_0000 {
            return Err(ErrorCode::MathOverflow);
        }
        Ok(total as i64)
    }
}

} // verus!

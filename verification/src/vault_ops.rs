//! Deposits and keeper feeds: the stake, the reserve, the implied
//! volatility, the carry inputs and the keeper bond.

use vstd::prelude::*;
use vstd::array::spec_array_update;
use crate::errors::ErrorCode;
use crate::events::{
    CarryInputsUpdated, ImpliedVolUpdated, KeeperBondUpdated, ReserveUpdated, StakeAllocated,
};
use crate::keys::Address;
use crate::risk::{expected_carry, required_reserve};
use crate::state::VaultState;

verus! {

impl VaultState {
    /// Why `signer` may not feed the vault right now, if so: the checks in
    /// the order pause, role, rate limit.
    pub open spec fn feed_refusal(&self, signer: Address) -> Option<ErrorCode> {
        if self.paused {
            Some(ErrorCode::Paused)
        } else if !self.may_feed(signer) {
            Some(ErrorCode::Unauthorized)
        } else if self.rate_limit_verdict(signer) is Err {
            Some(self.rate_limit_verdict(signer)->Err_0)
        } else {
            None
        }
    }

    /// Why a deposit to the stake is refused, if it is.
    pub open spec fn stake_refusal(&self, amount_sol: u64) -> Option<ErrorCode> {
        if self.paused {
            Some(ErrorCode::Paused)
        } else if amount_sol == 0 {
            Some(ErrorCode::InvalidParams)
        } else if self.staked_sol + amount_sol > u64::MAX {
            Some(ErrorCode::MathOverflow)
        } else if self.staked_sol + amount_sol > self.max_staked_sol {
            Some(ErrorCode::CapExceeded)
        } else if self.reserve_sol < required_reserve(
            self.staked_sol + amount_sol,
            self.min_reserve_bps as int,
        ) {
            Some(ErrorCode::ReserveTooLow)
        } else {
            None
        }
    }

    /// Why a deposit to the reserve is refused, if it is.
    pub open spec fn reserve_refusal(&self, amount_sol: u64) -> Option<ErrorCode> {
        if self.paused {
            Some(ErrorCode::Paused)
        } else if amount_sol == 0 {
            Some(ErrorCode::InvalidParams)
        } else if self.reserve_sol + amount_sol > u64::MAX {
            Some(ErrorCode::MathOverflow)
        } else if self.reserve_sol + amount_sol < required_reserve(
            self.staked_sol as int,
            self.min_reserve_bps as int,
        ) {
            Some(ErrorCode::ReserveTooLow)
        } else {
            None
        }
    }

    /// Why a deposit to the bond of `signer` is refused, if it is.
    pub open spec fn bond_refusal(&self, signer: Address, amount_lamports: u64) -> Option<
        ErrorCode,
    > {
        if self.paused {
            Some(ErrorCode::Paused)
        } else if !self.may_feed(signer) {
            Some(ErrorCode::Unauthorized)
        } else if amount_lamports == 0 {
            Some(ErrorCode::InvalidParams)
        } else if self.keeper_position(signer) is None {
            Some(ErrorCode::Unauthorized)
        } else if self.keeper_bond_deposited_lamports@[self.keeper_position(signer)->Some_0]
            + amount_lamports > u64::MAX {
            Some(ErrorCode::MathOverflow)
        } else {
            None
        }
    }

    /// Runs the three checks that every keeper feed starts with.
    pub fn check_feeder(&self, signer: &Address) -> (r: Result<(), ErrorCode>)
        ensures
            r == match self.feed_refusal(*signer) {
                Some(e) => Err::<(), ErrorCode>(e),
                None => Ok::<(), ErrorCode>(()),
            },
    {
        match self.require_not_paused() {
            Ok(()) => {},
            Err(e) => {
                return Err(e);
            },
        }
        match self.require_keeper_feeder(signer) {
            Ok(()) => {},
            Err(e) => {
                return Err(e);
            },
        }
        self.require_keeper_rate_limit_ok(signer)
    }
}

/// Adds `amount_sol` to the stake, within the stake cap and the reserve ratio.
pub fn deposit_and_stake(state: &mut VaultState, slot: u64, amount_sol: u64) -> (r: Result<
    StakeAllocated,
    ErrorCode,
>)
    ensures
        match old(state).stake_refusal(amount_sol) {
            Some(e) => r == Err::<StakeAllocated, ErrorCode>(e) && *final(state) == *old(state),
            None => {
                &&& *final(state) == (VaultState {
                    staked_sol: (old(state).staked_sol + amount_sol) as u64,
                    ..*old(state)
                })
                &&& r == Ok::<StakeAllocated, ErrorCode>(
                    StakeAllocated {
                        epoch: old(state).epoch,
                        slot,
                        amount_sol,
                        new_staked_sol: (old(state).staked_sol + amount_sol) as u64,
                        reserve_sol: old(state).reserve_sol,
                    },
                )
            },
        },
{
    match state.require_not_paused() {
        Ok(()) => {},
        Err(e) => {
            return Err(e);
        },
    }
    if amount_sol == 0 {
        return Err(ErrorCode::InvalidParams);
    }
    let new_staked = match state.staked_sol.checked_add(amount_sol) {
        Some(v) => v,
        None => {
            return Err(ErrorCode::MathOverflow);
        },
    };
    if new_staked > state.max_staked_sol {
        return Err(ErrorCode::CapExceeded);
    }
    let previous = state.staked_sol;
    state.staked_sol = new_staked;
    match state.enforce_reserve_ratio() {
        Ok(()) => {},
        Err(e) => {
            state.staked_sol = previous;
            return Err(e);
        },
    }
    Ok(
        StakeAllocated {
            epoch: state.epoch,
            slot,
            amount_sol,
            new_staked_sol: state.staked_sol,
            reserve_sol: state.reserve_sol,
        },
    )
}

/// Adds `amount_sol` to the reserve.
pub fn deposit_reserve(state: &mut VaultState, slot: u64, amount_sol: u64) -> (r: Result<
    ReserveUpdated,
    ErrorCode,
>)
    ensures
        match old(state).reserve_refusal(amount_sol) {
            Some(e) => r == Err::<ReserveUpdated, ErrorCode>(e) && *final(state) == *old(state),
            None => {
                &&& *final(state) == (VaultState {
                    reserve_sol: (old(state).reserve_sol + amount_sol) as u64,
                    ..*old(state)
                })
                &&& r == Ok::<ReserveUpdated, ErrorCode>(
                    ReserveUpdated {
                        epoch: old(state).epoch,
                        slot,
                        reserve_sol: (old(state).reserve_sol + amount_sol) as u64,
                        min_reserve_bps: old(state).min_reserve_bps,
                    },
                )
            },
        },
{
    match state.require_not_paused() {
        Ok(()) => {},
        Err(e) => {
            return Err(e);
        },
    }
    if amount_sol == 0 {
        return Err(ErrorCode::InvalidParams);
    }
    let new_reserve = match state.reserve_sol.checked_add(amount_sol) {
        Some(v) => v,
        None => {
            return Err(ErrorCode::MathOverflow);
        },
    };
    let previous = state.reserve_sol;
    state.reserve_sol = new_reserve;
    match state.enforce_reserve_ratio() {
        Ok(()) => {},
        Err(e) => {
            state.reserve_sol = previous;
            return Err(e);
        },
    }
    Ok(
        ReserveUpdated {
            epoch: state.epoch,
            slot,
            reserve_sol: state.reserve_sol,
            min_reserve_bps: state.min_reserve_bps,
        },
    )
}

/// Feeds a new implied volatility, at most 100%.
pub fn update_implied_vol(
    state: &mut VaultState,
    signer: &Address,
    slot: u64,
    implied_vol_bps: u16,
) -> (r: Result<ImpliedVolUpdated, ErrorCode>)
    ensures
        match old(state).feed_refusal(*signer) {
            Some(e) => r == Err::<ImpliedVolUpdated, ErrorCode>(e) && *final(state) == *old(state),
            None => if implied_vol_bps > 10000 {
                r == Err::<ImpliedVolUpdated, ErrorCode>(ErrorCode::VolOutOfRange) && *final(state)
                    == *old(state)
            } else {
                &&& *final(state) == (VaultState {
                    implied_vol_bps,
                    ..*old(state)
                }).after_heartbeat(*signer, slot)
                &&& r == Ok::<ImpliedVolUpdated, ErrorCode>(
                    ImpliedVolUpdated { epoch: old(state).epoch, slot, implied_vol_bps },
                )
            },
        },
{
    match state.check_feeder(signer) {
        Ok(()) => {},
        Err(e) => {
            return Err(e);
        },
    }
    if implied_vol_bps > 10_000 {
        return Err(ErrorCode::VolOutOfRange);
    }
    state.implied_vol_bps = implied_vol_bps;
    let _ = state.bump_keeper_heartbeat_and_updates(signer, slot);
    Ok(ImpliedVolUpdated { epoch: state.epoch, slot, implied_vol_bps })
}

/// Feeds new carry inputs, in basis points per day.
pub fn update_carry_inputs(
    state: &mut VaultState,
    signer: &Address,
    slot: u64,
    funding_bps_per_day: i32,
    borrow_bps_per_day: i32,
    staking_bps_per_day: i32,
) -> (r: Result<CarryInputsUpdated, ErrorCode>)
    ensures
        match old(state).feed_refusal(*signer) {
            Some(e) => r == Err::<CarryInputsUpdated, ErrorCode>(e) && *final(state) == *old(
                state,
            ),
            None => {
                &&& *final(state) == (VaultState {
                    funding_bps_per_day,
                    borrow_bps_per_day,
                    staking_bps_per_day,
                    ..*old(state)
                }).after_heartbeat(*signer, slot)
                &&& r == Ok::<CarryInputsUpdated, ErrorCode>(
                    CarryInputsUpdated {
                        epoch: old(state).epoch,
                        slot,
                        funding_bps_per_day,
                        borrow_bps_per_day,
                        staking_bps_per_day,
                        expected_carry_bps: expected_carry(
                            staking_bps_per_day as int,
                            funding_bps_per_day as int,
                            borrow_bps_per_day as int,
                        ) as i32,
                    },
                )
            },
        },
{
    match state.check_feeder(signer) {
        Ok(()) => {},
        Err(e) => {
            return Err(e);
        },
    }
    state.funding_bps_per_day = funding_bps_per_day;
    state.borrow_bps_per_day = borrow_bps_per_day;
    state.staking_bps_per_day = staking_bps_per_day;
    let _ = state.bump_keeper_heartbeat_and_updates(signer, slot);
    Ok(
        CarryInputsUpdated {
            epoch: state.epoch,
            slot,
            funding_bps_per_day,
            borrow_bps_per_day,
            staking_bps_per_day,
            expected_carry_bps: state.expected_carry_bps(),
        },
    )
}

/// Adds `amount_lamports` to the bond of the keeper `signer`.
pub fn deposit_keeper_bond(
    state: &mut VaultState,
    signer: &Address,
    slot: u64,
    amount_lamports: u64,
) -> (r: Result<KeeperBondUpdated, ErrorCode>)
    ensures
        match old(state).bond_refusal(*signer, amount_lamports) {
            Some(e) => r == Err::<KeeperBondUpdated, ErrorCode>(e) && *final(state) == *old(state),
            None => {
                let row = old(state).keeper_position(*signer)->Some_0;
                let total = (old(state).keeper_bond_deposited_lamports@[row]
                    + amount_lamports) as u64;
                &&& *final(state) == (VaultState {
                    keeper_bond_deposited_lamports: spec_array_update(
                        old(state).keeper_bond_deposited_lamports,
                        row,
                        total,
                    ),
                    ..*old(state)
                })
                &&& r == Ok::<KeeperBondUpdated, ErrorCode>(
                    KeeperBondUpdated {
                        epoch: old(state).epoch,
                        slot,
                        keeper: *signer,
                        deposited_lamports: total,
                        required_lamports: old(state).keeper_bond_required_lamports,
                    },
                )
            },
        },
{
    match state.require_not_paused() {
        Ok(()) => {},
        Err(e) => {
            return Err(e);
        },
    }
    match state.require_keeper_feeder(signer) {
        Ok(()) => {},
        Err(e) => {
            return Err(e);
        },
    }
    if amount_lamports == 0 {
        return Err(ErrorCode::InvalidParams);
    }
    let idx = match state.keeper_index(signer) {
        Some(i) => i,
        None => {
            return Err(ErrorCode::Unauthorized);
        },
    };
    let total = match state.keeper_bond_deposited_lamports[idx].checked_add(amount_lamports) {
        Some(v) => v,
        None => {
            return Err(ErrorCode::MathOverflow);
        },
    };
    state.keeper_bond_deposited_lamports[idx] = total;
    proof {
        assert(state.keeper_bond_deposited_lamports =~= spec_array_update(
            old(state).keeper_bond_deposited_lamports,
            idx as int,
            total,
        ));
    }
    Ok(
        KeeperBondUpdated {
            epoch: state.epoch,
            slot,
            keeper: *signer,
            deposited_lamports: total,
            required_lamports: state.keeper_bond_required_lamports,
        },
    )
}

} // verus!

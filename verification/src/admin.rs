//! Administration: safety switches, roles and the keeper table. Every
//! change bumps the configuration version and renews its digest.

use vstd::prelude::*;
use crate::errors::ErrorCode;
use crate::events::{
    AuthorityAccepted, EmergencyModeSet, KeeperAdminSet, KeeperSet, PausedSet, PendingAuthoritySet,
};
use crate::keys::Address;
use crate::state::VaultState;

verus! {

/// Sets the pause switch.
pub fn set_paused(state: &mut VaultState, slot: u64, paused: bool) -> (r: Result<
    PausedSet,
    ErrorCode,
>)
    ensures
        *final(state) == (VaultState { paused, ..*old(state) }).config_bumped(),
        r == Ok::<PausedSet, ErrorCode>(
            PausedSet {
                epoch: old(state).epoch,
                slot,
                paused,
                config_version: final(state).config_version,
                config_hash: final(state).config_hash,
            },
        ),
{
    state.paused = paused;
    state.bump_config_version_and_hash();
    Ok(
        PausedSet {
            epoch: state.epoch,
            slot,
            paused,
            config_version: state.config_version,
            config_hash: state.config_hash,
        },
    )
}

/// Sets the emergency-withdraw switch.
pub fn set_emergency_withdraw_enabled(state: &mut VaultState, slot: u64, enabled: bool) -> (r:
    Result<EmergencyModeSet, ErrorCode>)
    ensures
        *final(state) == (VaultState {
            emergency_withdraw_enabled: enabled,
            ..*old(state)
        }).config_bumped(),
        r == Ok::<EmergencyModeSet, ErrorCode>(
            EmergencyModeSet {
                epoch: old(state).epoch,
                slot,
                emergency_withdraw_enabled: enabled,
                config_version: final(state).config_version,
                config_hash: final(state).config_hash,
            },
        ),
{
    state.emergency_withdraw_enabled = enabled;
    state.bump_config_version_and_hash();
    Ok(
        EmergencyModeSet {
            epoch: state.epoch,
            slot,
            emergency_withdraw_enabled: enabled,
            config_version: state.config_version,
            config_hash: state.config_hash,
        },
    )
}

/// Proposes `pending` as the next authority; the address of zeros is refused.
pub fn set_pending_authority(state: &mut VaultState, slot: u64, pending: Address) -> (r: Result<
    PendingAuthoritySet,
    ErrorCode,
>)
    ensures
        pending.is_none() ==> r == Err::<PendingAuthoritySet, ErrorCode>(ErrorCode::InvalidParams)
            && *final(state) == *old(state),
        !pending.is_none() ==> *final(state) == (VaultState {
            pending_authority: pending,
            ..*old(state)
        }).config_bumped() && r == Ok::<PendingAuthoritySet, ErrorCode>(
            PendingAuthoritySet {
                epoch: old(state).epoch,
                slot,
                pending_authority: pending,
                config_version: final(state).config_version,
                config_hash: final(state).config_hash,
            },
        ),
{
    if pending.is_unset() {
        return Err(ErrorCode::InvalidParams);
    }
    state.pending_authority = pending;
    state.bump_config_version_and_hash();
    Ok(
        PendingAuthoritySet {
            epoch: state.epoch,
            slot,
            pending_authority: pending,
            config_version: state.config_version,
            config_hash: state.config_hash,
        },
    )
}

impl VaultState {
    /// Why `signer` cannot take the authority over, if so: nobody is
    /// proposed, or somebody else is.
    pub open spec fn accept_refusal(&self, signer: Address) -> Option<ErrorCode> {
        if self.pending_authority.is_none() {
            Some(ErrorCode::InvalidParams)
        } else if signer != self.pending_authority {
            Some(ErrorCode::Unauthorized)
        } else {
            None
        }
    }

    /// The state after the proposed authority took over: it is authority and
    /// keeper admin, and nobody is proposed.
    pub open spec fn after_accept(self) -> VaultState {
        (VaultState {
            authority: self.pending_authority,
            pending_authority: Address::spec_none(),
            keeper_admin: self.pending_authority,
            ..self
        }).config_bumped()
    }
}

/// Hands the authority to `signer`, if `signer` is the proposed authority.
pub fn accept_authority(state: &mut VaultState, signer: &Address, slot: u64) -> (r: Result<
    AuthorityAccepted,
    ErrorCode,
>)
    ensures
        match old(state).accept_refusal(*signer) {
            Some(e) => r == Err::<AuthorityAccepted, ErrorCode>(e) && *final(state) == *old(state),
            None => {
                &&& *final(state) == old(state).after_accept()
                &&& r == Ok::<AuthorityAccepted, ErrorCode>(
                    AuthorityAccepted {
                        epoch: old(state).epoch,
                        slot,
                        old_authority: old(state).authority,
                        new_authority: old(state).pending_authority,
                        new_keeper_admin: old(state).pending_authority,
                        config_version: final(state).config_version,
                        config_hash: final(state).config_hash,
                    },
                )
            },
        },
{
    if state.pending_authority.is_unset() {
        return Err(ErrorCode::InvalidParams);
    }
    if !signer.same_as(&state.pending_authority) {
        return Err(ErrorCode::Unauthorized);
    }
    let previous = state.authority;
    state.authority = state.pending_authority;
    state.pending_authority = Address::none();
    state.keeper_admin = state.authority;
    state.bump_config_version_and_hash();
    Ok(
        AuthorityAccepted {
            epoch: state.epoch,
            slot,
            old_authority: previous,
            new_authority: state.authority,
            new_keeper_admin: state.keeper_admin,
            config_version: state.config_version,
            config_hash: state.config_hash,
        },
    )
}

/// Names a new keeper admin; the address of zeros is refused.
pub fn set_keeper_admin(state: &mut VaultState, slot: u64, keeper_admin: Address) -> (r: Result<
    KeeperAdminSet,
    ErrorCode,
>)
    ensures
        keeper_admin.is_none() ==> r == Err::<KeeperAdminSet, ErrorCode>(ErrorCode::InvalidParams)
            && *final(state) == *old(state),
        !keeper_admin.is_none() ==> *final(state) == (VaultState {
            keeper_admin,
            ..*old(state)
        }).config_bumped() && r == Ok::<KeeperAdminSet, ErrorCode>(
            KeeperAdminSet {
                epoch: old(state).epoch,
                slot,
                keeper_admin,
                config_version: final(state).config_version,
                config_hash: final(state).config_hash,
            },
        ),
{
    if keeper_admin.is_unset() {
        return Err(ErrorCode::InvalidParams);
    }
    state.keeper_admin = keeper_admin;
    state.bump_config_version_and_hash();
    Ok(
        KeeperAdminSet {
            epoch: state.epoch,
            slot,
            keeper_admin,
            config_version: state.config_version,
            config_hash: state.config_hash,
        },
    )
}

/// Adds a keeper; the address of zeros and a full table are refused.
pub fn add_keeper(state: &mut VaultState, slot: u64, keeper: Address) -> (r: Result<
    KeeperSet,
    ErrorCode,
>)
    ensures
        keeper.is_none() || old(state).after_add_keeper(keeper) is Err ==> r == Err::<
            KeeperSet,
            ErrorCode,
        >(ErrorCode::InvalidParams) && *final(state) == *old(state),
        !keeper.is_none() && old(state).after_add_keeper(keeper) is Ok ==> *final(state) == old(
            state,
        ).after_add_keeper(keeper)->Ok_0.config_bumped() && r == Ok::<KeeperSet, ErrorCode>(
            KeeperSet {
                epoch: old(state).epoch,
                slot,
                keeper,
                is_added: true,
                keeper_count: final(state).keeper_count,
                config_version: final(state).config_version,
                config_hash: final(state).config_hash,
            },
        ),
{
    if keeper.is_unset() {
        return Err(ErrorCode::InvalidParams);
    }
    match state.add_keeper(keeper) {
        Ok(()) => {},
        Err(e) => {
            return Err(e);
        },
    }
    state.bump_config_version_and_hash();
    Ok(
        KeeperSet {
            epoch: state.epoch,
            slot,
            keeper,
            is_added: true,
            keeper_count: state.keeper_count,
            config_version: state.config_version,
            config_hash: state.config_hash,
        },
    )
}

/// Removes a keeper; the address of zeros is refused, and who is no keeper
/// is removed without effect on the table.
pub fn remove_keeper(state: &mut VaultState, slot: u64, keeper: Address) -> (r: Result<
    KeeperSet,
    ErrorCode,
>)
    requires
        old(state).keepers_wf(),
    ensures
        keeper.is_none() ==> r == Err::<KeeperSet, ErrorCode>(ErrorCode::InvalidParams),
        keeper.is_none() ==> *final(state) == *old(state),
        !keeper.is_none() ==> *final(state) == old(state).after_remove_keeper(
            keeper,
        ).config_bumped() && r == Ok::<KeeperSet, ErrorCode>(
            KeeperSet {
                epoch: old(state).epoch,
                slot,
                keeper,
                is_added: false,
                keeper_count: final(state).keeper_count,
                config_version: final(state).config_version,
                config_hash: final(state).config_hash,
            },
        ),
        final(state).keepers_wf(),
{
    if keeper.is_unset() {
        return Err(ErrorCode::InvalidParams);
    }
    match state.remove_keeper(keeper) {
        Ok(()) => {},
        Err(e) => {
            return Err(e);
        },
    }
    state.bump_config_version_and_hash();
    Ok(
        KeeperSet {
            epoch: state.epoch,
            slot,
            keeper,
            is_added: false,
            keeper_count: state.keeper_count,
            config_version: state.config_version,
            config_hash: state.config_hash,
        },
    )
}

} // verus!

//! The keeper table: who may feed the vault, how often per epoch, and with
//! what bond.

use vstd::prelude::*;
use vstd::array::spec_array_update;
use crate::errors::ErrorCode;
use crate::keys::Address;
use crate::state::VaultState;

verus! {

/// The first position at which `k` stands in `keys`, if it stands there.
pub open spec fn first_index_of(keys: Seq<Address>, k: Address) -> Option<int>
    decreases keys.len(),
{
    if keys.len() == 0 {
        None
    } else {
        match first_index_of(keys.drop_last(), k) {
            Some(i) => Some(i),
            None => if keys.last() == k {
                Some(keys.len() - 1)
            } else {
                None
            },
        }
    }
}

/// What `first_index_of` finds: a position of `k` with no position of `k`
/// before it, or nothing where `k` does not stand in `keys`.
pub proof fn lemma_first_index_of(keys: Seq<Address>, k: Address)
    ensures
        match first_index_of(keys, k) {
            Some(i) => 0 <= i < keys.len() && keys[i] == k && forall|j: int|
                0 <= j < i ==> keys[j] != k,
            None => forall|j: int| 0 <= j < keys.len() ==> keys[j] != k,
        },
    decreases keys.len(),
{
    if keys.len() > 0 {
        let front = keys.drop_last();
        lemma_first_index_of(front, k);
        assert forall|j: int| 0 <= j < front.len() implies front[j] == keys[j] by {}
        match first_index_of(front, k) {
            Some(i) => {
                assert(front[i] == keys[i]);
                assert forall|j: int| 0 <= j < i implies keys[j] != k by {
                    assert(front[j] != k);
                }
            },
            None => {
                assert forall|j: int| 0 <= j < front.len() implies keys[j] != k by {
                    assert(front[j] != k);
                }
            },
        }
    }
}

impl VaultState {
    /// Number of table rows in use.
    pub open spec fn keeper_rows(&self) -> int {
        if self.keeper_count <= 8 {
            self.keeper_count as int
        } else {
            8
        }
    }

    /// The keepers in the order of their rows.
    pub open spec fn keeper_list(&self) -> Seq<Address> {
        self.keepers@.take(self.keeper_rows())
    }

    /// The row of the keeper `k`, if `k` is a keeper.
    pub open spec fn keeper_position(&self, k: Address) -> Option<int> {
        first_index_of(self.keeper_list(), k)
    }

    /// Whether `k` may feed the vault: a keeper, the keeper admin or the authority.
    pub open spec fn may_feed(&self, k: Address) -> bool {
        self.keeper_position(k) is Some || k == self.keeper_admin || k == self.authority
    }

    /// The verdict of the rate limit and the bond on `k`; who is no keeper
    /// passes.
    pub open spec fn rate_limit_verdict(&self, k: Address) -> Result<(), ErrorCode> {
        match self.keeper_position(k) {
            None => Ok(()),
            Some(i) => if self.keeper_bond_required_lamports > 0
                && self.keeper_bond_deposited_lamports@[i] < self.keeper_bond_required_lamports {
                Err(ErrorCode::KeeperBondInsufficient)
            } else if self.keeper_updates_this_epoch@[i] >= self.max_updates_per_epoch {
                Err(ErrorCode::KeeperRateLimited)
            } else {
                Ok(())
            },
        }
    }

    /// The state after `keeper` fed the vault at `slot`: its heartbeat is set
    /// and its update counter goes up, saturating. Who is no keeper leaves no
    /// trace.
    pub open spec fn after_heartbeat(self, keeper: Address, slot: u64) -> VaultState {
        match self.keeper_position(keeper) {
            None => self,
            Some(i) => VaultState {
                keeper_heartbeat_slot: spec_array_update(self.keeper_heartbeat_slot, i, slot),
                keeper_updates_this_epoch: spec_array_update(
                    self.keeper_updates_this_epoch,
                    i,
                    if self.keeper_updates_this_epoch@[i] == u16::MAX {
                        u16::MAX
                    } else {
                        (self.keeper_updates_this_epoch@[i] + 1) as u16
                    },
                ),
                ..self
            },
        }
    }

    /// The state after `keeper` joins: it takes the first free row, with
    /// cleared counters. A keeper that is in already changes nothing; a full
    /// table refuses.
    pub open spec fn after_add_keeper(self, keeper: Address) -> Result<VaultState, ErrorCode> {
        if self.keeper_position(keeper) is Some {
            Ok(self)
        } else if self.keeper_count >= 8 {
            Err(ErrorCode::InvalidParams)
        } else {
            let n = self.keeper_count as int;
            Ok(
                VaultState {
                    keepers: spec_array_update(self.keepers, n, keeper),
                    keeper_heartbeat_slot: spec_array_update(self.keeper_heartbeat_slot, n, 0u64),
                    keeper_miss_count: spec_array_update(self.keeper_miss_count, n, 0u32),
                    keeper_updates_this_epoch: spec_array_update(
                        self.keeper_updates_this_epoch,
                        n,
                        0u16,
                    ),
                    keeper_bond_deposited_lamports: spec_array_update(
                        self.keeper_bond_deposited_lamports,
                        n,
                        0u64,
                    ),
                    keeper_count: (n + 1) as u8,
                    ..self
                },
            )
        }
    }

    /// The state after `keeper` leaves: the last row in use moves into its
    /// row and is cleared. Who is no keeper changes nothing.
    pub open spec fn after_remove_keeper(self, keeper: Address) -> VaultState {
        match self.keeper_position(keeper) {
            None => self,
            Some(i) => {
                let last = self.keeper_count - 1;
                VaultState {
                    keepers: spec_array_update(
                        spec_array_update(self.keepers, i, self.keepers@[last]),
                        last,
                        Address::spec_none(),
                    ),
                    keeper_heartbeat_slot: spec_array_update(
                        spec_array_update(
                            self.keeper_heartbeat_slot,
                            i,
                            self.keeper_heartbeat_slot@[last],
                        ),
                        last,
                        0u64,
                    ),
                    keeper_miss_count: spec_array_update(
                        spec_array_update(self.keeper_miss_count, i, self.keeper_miss_count@[last]),
                        last,
                        0u32,
                    ),
                    keeper_updates_this_epoch: spec_array_update(
                        spec_array_update(
                            self.keeper_updates_this_epoch,
                            i,
                            self.keeper_updates_this_epoch@[last],
                        ),
                        last,
                        0u16,
                    ),
                    keeper_bond_deposited_lamports: spec_array_update(
                        spec_array_update(
                            self.keeper_bond_deposited_lamports,
                            i,
                            self.keeper_bond_deposited_lamports@[last],
                        ),
                        last,
                        0u64,
                    ),
                    keeper_count: last as u8,
                    ..self
                }
            },
        }
    }

    /// The row of the keeper `k`, if `k` is a keeper.
    pub fn keeper_index(&self, k: &Address) -> (r: Option<usize>)
        ensures
            match r {
                Some(i) => self.keeper_position(*k) == Some(i as int) && i < self.keeper_rows(),
                None => self.keeper_position(*k) is None,
            },
    {
        let n: usize = if (self.keeper_count as usize) < 8 {
            self.keeper_count as usize
        } else {
            8
        };
        let mut i: usize = 0;
        while i < n
            invariant
                0 <= i <= n,
                n == self.keeper_rows(),
                first_index_of(self.keeper_list().take(i as int), *k) is None,
            decreases n - i,
        {
            proof {
                assert(self.keeper_list().take(i + 1).drop_last() =~= self.keeper_list().take(
                    i as int,
                ));
            }
            if self.keepers[i].same_as(k) {
                proof {
                    lemma_first_index_extends(self.keeper_list(), *k, i + 1);
                }
                return Some(i);
            }
            i = i + 1;
        }
        proof {
            assert(self.keeper_list().take(n as int) =~= self.keeper_list());
        }
        None
    }

    /// Whether `k` is a keeper.
    pub fn is_keeper(&self, k: &Address) -> (b: bool)
        ensures
            b == self.keeper_position(*k) is Some,
    {
        self.keeper_index(k).is_some()
    }

    /// Fails unless `k` may feed the vault.
    pub fn require_keeper_feeder(&self, k: &Address) -> (r: Result<(), ErrorCode>)
        ensures
            r == if self.may_feed(*k) {
                Ok::<(), ErrorCode>(())
            } else {
                Err::<(), ErrorCode>(ErrorCode::Unauthorized)
            },
    {
        if self.is_keeper(k) || k.same_as(&self.keeper_admin) || k.same_as(&self.authority) {
            Ok(())
        } else {
            Err(ErrorCode::Unauthorized)
        }
    }

    /// Fails where a keeper's bond is short or its updates for the epoch are
    /// used up.
    pub fn require_keeper_rate_limit_ok(&self, k: &Address) -> (r: Result<(), ErrorCode>)
        ensures
            r == self.rate_limit_verdict(*k),
    {
        if let Some(i) = self.keeper_index(k) {
            if self.keeper_bond_required_lamports > 0 {
                if self.keeper_bond_deposited_lamports[i] < self.keeper_bond_required_lamports {
                    return Err(ErrorCode::KeeperBondInsufficient);
                }
            }
            if self.keeper_updates_this_epoch[i] >= self.max_updates_per_epoch {
                return Err(ErrorCode::KeeperRateLimited);
            }
        }
        Ok(())
    }

    /// Notes that `keeper` fed the vault at `slot`.
    pub fn bump_keeper_heartbeat_and_updates(&mut self, keeper: &Address, slot: u64) -> (r: Result<
        (),
        ErrorCode,
    >)
        ensures
            r == Ok::<(), ErrorCode>(()),
            *final(self) == old(self).after_heartbeat(*keeper, slot),
    {
        if let Some(i) = self.keeper_index(keeper) {
            self.keeper_heartbeat_slot[i] = slot;
            let bumped = self.keeper_updates_this_epoch[i].saturating_add(1);
            self.keeper_updates_this_epoch[i] = bumped;
            proof {
                let next = old(self).after_heartbeat(*keeper, slot);
                assert(self.keeper_heartbeat_slot =~= next.keeper_heartbeat_slot);
                assert(self.keeper_updates_this_epoch =~= next.keeper_updates_this_epoch);
            }
        }
        Ok(())
    }

    /// Adds a keeper to the table.
    pub fn add_keeper(&mut self, keeper: Address) -> (r: Result<(), ErrorCode>)
        ensures
            match old(self).after_add_keeper(keeper) {
                Ok(next) => r == Ok::<(), ErrorCode>(()) && *final(self) == next,
                Err(e) => r == Err::<(), ErrorCode>(e) && *final(self) == *old(self),
            },
    {
        if self.is_keeper(&keeper) {
            return Ok(());
        }
        let n = self.keeper_count as usize;
        if n >= 8 {
            return Err(ErrorCode::InvalidParams);
        }
        self.keepers[n] = keeper;
        self.keeper_heartbeat_slot[n] = 0;
        self.keeper_miss_count[n] = 0;
        self.keeper_updates_this_epoch[n] = 0;
        self.keeper_bond_deposited_lamports[n] = 0;
        self.keeper_count = (n + 1) as u8;
        proof {
            let next = old(self).after_add_keeper(keeper)->Ok_0;
            assert(self.keepers =~= next.keepers);
            assert(self.keeper_heartbeat_slot =~= next.keeper_heartbeat_slot);
            assert(self.keeper_miss_count =~= next.keeper_miss_count);
            assert(self.keeper_updates_this_epoch =~= next.keeper_updates_this_epoch);
            assert(self.keeper_bond_deposited_lamports =~= next.keeper_bond_deposited_lamports);
        }
        Ok(())
    }

    /// Removes a keeper from the table.
    pub fn remove_keeper(&mut self, keeper: Address) -> (r: Result<(), ErrorCode>)
        requires
            old(self).keepers_wf(),
        ensures
            r == Ok::<(), ErrorCode>(()),
            *final(self) == old(self).after_remove_keeper(keeper),
            final(self).keepers_wf(),
    {
        let n = self.keeper_count as usize;
        if n == 0 {
            proof {
                assert(self.keeper_list() =~= Seq::<Address>::empty());
            }
            return Ok(());
        }
        let i = match self.keeper_index(&keeper) {
            Some(i) => i,
            None => {
                return Ok(());
            },
        };
        let last = n - 1;
        self.keepers[i] = self.keepers[last];
        self.keeper_heartbeat_slot[i] = self.keeper_heartbeat_slot[last];
        self.keeper_miss_count[i] = self.keeper_miss_count[last];
        self.keeper_updates_this_epoch[i] = self.keeper_updates_this_epoch[last];
        self.keeper_bond_deposited_lamports[i] = self.keeper_bond_deposited_lamports[last];
        self.keepers[last] = Address::none();
        self.keeper_heartbeat_slot[last] = 0;
        self.keeper_miss_count[last] = 0;
        self.keeper_updates_this_epoch[last] = 0;
        self.keeper_bond_deposited_lamports[last] = 0;
        self.keeper_count = last as u8;
        proof {
            let next = old(self).after_remove_keeper(keeper);
            assert(self.keepers =~= next.keepers);
            assert(self.keeper_heartbeat_slot =~= next.keeper_heartbeat_slot);
            assert(self.keeper_miss_count =~= next.keeper_miss_count);
            assert(self.keeper_updates_this_epoch =~= next.keeper_updates_this_epoch);
            assert(self.keeper_bond_deposited_lamports =~= next.keeper_bond_deposited_lamports);
        }
        Ok(())
    }
}

/// A match at the end of a prefix with no match before it is the first match
/// of the whole sequence.
proof fn lemma_first_index_extends(keys: Seq<Address>, k: Address, n: int)
    requires
        0 < n <= keys.len(),
        first_index_of(keys.take(n - 1), k) is None,
        keys[n - 1] == k,
    ensures
        first_index_of(keys, k) == Some(n - 1),
    decreases keys.len() - n,
{
    assert(keys.take(n).drop_last() =~= keys.take(n - 1));
    assert(first_index_of(keys.take(n), k) == Some(n - 1));
    lemma_first_index_prefix(keys, k, n);
}

/// What is found in a prefix is found in the whole sequence.
proof fn lemma_first_index_prefix(keys: Seq<Address>, k: Address, n: int)
    requires
        0 <= n <= keys.len(),
        first_index_of(keys.take(n), k) is Some,
    ensures
        first_index_of(keys, k) == first_index_of(keys.take(n), k),
    decreases keys.len() - n,
{
    if n == keys.len() {
        assert(keys.take(n) =~= keys);
    } else {
        assert(keys.take(n + 1).drop_last() =~= keys.take(n));
        lemma_first_index_prefix(keys, k, n + 1);
    }
}

} // verus!

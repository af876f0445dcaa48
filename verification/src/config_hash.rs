//! Identity of the configuration: a version counter and a digest over the
//! configured values, renewed on every change.

use vstd::prelude::*;
use crate::keys::Address;
use crate::state::VaultState;

verus! {

/// The tag that leads the digest input: the ASCII bytes of `vwsa-config-v1`.
pub const CONFIG_HASH_DOMAIN: [u8; 14] = [
    0x76,
    0x77,
    0x73,
    0x61,
    0x2d,
    0x63,
    0x6f,
    0x6e,
    0x66,
    0x69,
    0x67,
    0x2d,
    0x76,
    0x31,
];

/// The SHA-256 digest that `solana_program::hash::hashv` returns for the
/// given parts in order.
pub uninterp spec fn hashv_digest(parts: Seq<Seq<u8>>) -> [u8; 32];

/// `solana_program::hash::hashv`, as `anchor_lang` hands it on: feeds the
/// parts to one SHA-256 hasher in order and returns the 32 bytes of the
/// digest. Nothing is proved of it; the contract only gives the result its
/// name.
#[verifier::external_body]
fn hashv_pair(domain: &[u8], body: &[u8]) -> (digest: [u8; 32])
    ensures
        digest == hashv_digest(seq![domain@, body@]),
{
    anchor_lang::solana_program::hash::hashv(&[domain, body]).to_bytes()
}

/// The `n` low bytes of `x`, lowest first.
pub open spec fn le_bytes(x: nat, n: nat) -> Seq<u8>
    decreases n,
{
    if n == 0 {
        Seq::empty()
    } else {
        seq![(x % 256) as u8] + le_bytes(x / 256, (n - 1) as nat)
    }
}

/// A signed 64-bit value as the unsigned value with the same bits.
pub open spec fn twos_complement(x: int) -> nat {
    if x >= 0 {
        x as nat
    } else {
        (x + 0x1_0000_0000_0000_0000) as nat
    }
}

/// The configured values in the byte layout that the digest is taken over:
/// addresses as they are, integers little-endian, modes as their numbers.
pub open spec fn config_bytes(s: VaultState) -> Seq<u8> {
    s.authority@ + s.keeper_admin@ + le_bytes(s.min_band_bps as nat, 2) + le_bytes(
        s.max_band_bps as nat,
        2,
    ) + le_bytes(s.min_interval_slots as nat, 8) + le_bytes(s.max_interval_slots as nat, 8)
        + le_bytes(s.vol_weight_realized_bps as nat, 2) + le_bytes(
        s.vol_weight_implied_bps as nat,
        2,
    ) + le_bytes(s.vol_mode.spec_code() as nat, 1) + le_bytes(s.ewma_alpha_bps as nat, 2)
        + le_bytes(s.min_samples as nat, 1) + le_bytes(s.min_return_spacing_slots as nat, 8)
        + le_bytes(s.policy_update_min_slots as nat, 8) + le_bytes(
        s.max_policy_slew_bps as nat,
        2,
    ) + le_bytes(s.hysteresis_bps as nat, 2) + le_bytes(
        s.oracle_feed_choice.spec_code() as nat,
        1,
    ) + le_bytes(s.max_price_age_seconds as nat, 8) + le_bytes(s.max_confidence_bps as nat, 2)
        + le_bytes(s.max_price_jump_bps as nat, 2) + le_bytes(s.target_delta_bps as nat, 2)
        + le_bytes(twos_complement(s.lst_beta_fp as int), 8) + le_bytes(
        s.max_staked_sol as nat,
        8,
    ) + le_bytes(twos_complement(s.max_abs_hedge_notional_usd as int), 8) + le_bytes(
        twos_complement(s.max_hedge_per_sol_usd_fp as int),
        8,
    ) + le_bytes(s.min_reserve_bps as nat, 2) + le_bytes(s.max_confirm_delay_slots as nat, 8)
        + le_bytes(s.extreme_drift_bps as nat, 2) + le_bytes(s.max_updates_per_epoch as nat, 2)
        + le_bytes(s.keeper_bond_required_lamports as nat, 8)
}

/// The digest of the configuration of `s`.
pub open spec fn config_digest(s: VaultState) -> [u8; 32] {
    hashv_digest(seq![CONFIG_HASH_DOMAIN@, config_bytes(s)])
}

/// Appends the `n` low bytes of `x`, lowest first.
fn append_le(out: &mut Vec<u8>, x: u64, n: usize)
    ensures
        final(out)@ == old(out)@ + le_bytes(x as nat, n as nat),
{
    let mut rest: u64 = x;
    let mut i: usize = 0;
    proof {
        assert(out@ =~= old(out)@ + Seq::<u8>::empty());
    }
    while i < n
        invariant
            0 <= i <= n,
            old(out)@ + le_bytes(x as nat, n as nat) == out@ + le_bytes(rest as nat, (n - i) as nat),
        decreases n - i,
    {
        let ghost before = out@;
        out.push((rest % 256) as u8);
        proof {
            assert(before + le_bytes(rest as nat, (n - i) as nat) =~= out@ + le_bytes(
                (rest / 256) as nat,
                (n - i - 1) as nat,
            ));
        }
        rest = rest / 256;
        i = i + 1;
    }
    proof {
        assert(out@ + le_bytes(rest as nat, 0) =~= out@);
    }
}

/// Appends the eight bytes of a signed value, lowest first.
fn append_le_signed(out: &mut Vec<u8>, x: i64)
    ensures
        final(out)@ == old(out)@ + le_bytes(twos_complement(x as int), 8),
{
    let bits: u64 = if x >= 0 {
        x as u64
    } else {
        u64::MAX - ((-(x + 1)) as u64)
    };
    append_le(out, bits, 8);
}

/// Appends the bytes of an address.
fn append_address(out: &mut Vec<u8>, a: &Address)
    ensures
        final(out)@ == old(out)@ + a@,
{
    let mut i: usize = 0;
    proof {
        assert(out@ =~= old(out)@ + a@.take(0));
    }
    while i < 32
        invariant
            0 <= i <= 32,
            out@ == old(out)@ + a@.take(i as int),
        decreases 32 - i,
    {
        out.push(a.bytes[i]);
        proof {
            assert(out@ =~= old(out)@ + a@.take(i + 1));
        }
        i = i + 1;
    }
    proof {
        assert(a@.take(32) =~= a@);
    }
}

impl VaultState {
    /// The state with the digest of its configuration renewed.
    pub open spec fn rehashed(self) -> VaultState {
        VaultState { config_hash: config_digest(self), ..self }
    }

    /// The state after a change of configuration: the version goes up,
    /// saturating, and the digest is renewed.
    pub open spec fn config_bumped(self) -> VaultState {
        (VaultState {
            config_version: if self.config_version == u64::MAX {
                u64::MAX
            } else {
                (self.config_version + 1) as u64
            },
            ..self
        }).rehashed()
    }

    /// The configured values in the byte layout of the digest.
    pub fn config_bytes(&self) -> (bytes: Vec<u8>)
        ensures
            bytes@ == config_bytes(*self),
    {
        let mut bytes: Vec<u8> = Vec::with_capacity(256);
        proof {
            assert(bytes@ + self.authority@ =~= self.authority@);
        }
        append_address(&mut bytes, &self.authority);
        append_address(&mut bytes, &self.keeper_admin);
        append_le(&mut bytes, self.min_band_bps as u64, 2);
        append_le(&mut bytes, self.max_band_bps as u64, 2);
        append_le(&mut bytes, self.min_interval_slots, 8);
        append_le(&mut bytes, self.max_interval_slots, 8);
        append_le(&mut bytes, self.vol_weight_realized_bps as u64, 2);
        append_le(&mut bytes, self.vol_weight_implied_bps as u64, 2);
        append_le(&mut bytes, self.vol_mode.code() as u64, 1);
        append_le(&mut bytes, self.ewma_alpha_bps as u64, 2);
        append_le(&mut bytes, self.min_samples as u64, 1);
        append_le(&mut bytes, self.min_return_spacing_slots, 8);
        append_le(&mut bytes, self.policy_update_min_slots, 8);
        append_le(&mut bytes, self.max_policy_slew_bps as u64, 2);
        append_le(&mut bytes, self.hysteresis_bps as u64, 2);
        append_le(&mut bytes, self.oracle_feed_choice.code() as u64, 1);
        append_le(&mut bytes, self.max_price_age_seconds, 8);
        append_le(&mut bytes, self.max_confidence_bps as u64, 2);
        append_le(&mut bytes, self.max_price_jump_bps as u64, 2);
        append_le(&mut bytes, self.target_delta_bps as u64, 2);
        append_le_signed(&mut bytes, self.lst_beta_fp);
        append_le(&mut bytes, self.max_staked_sol, 8);
        append_le_signed(&mut bytes, self.max_abs_hedge_notional_usd);
        append_le_signed(&mut bytes, self.max_hedge_per_sol_usd_fp);
        append_le(&mut bytes, self.min_reserve_bps as u64, 2);
        append_le(&mut bytes, self.max_confirm_delay_slots, 8);
        append_le(&mut bytes, self.extreme_drift_bps as u64, 2);
        append_le(&mut bytes, self.max_updates_per_epoch as u64, 2);
        append_le(&mut bytes, self.keeper_bond_required_lamports, 8);
        bytes
    }

    /// Renews the digest of the configuration.
    pub fn recompute_config_hash(&mut self)
        ensures
            *final(self) == old(self).rehashed(),
    {
        let bytes = self.config_bytes();
        let domain = CONFIG_HASH_DOMAIN;
        self.config_hash = hashv_pair(domain.as_slice(), bytes.as_slice());
    }

    /// Notes a change of configuration: bumps the version and renews the digest.
    pub fn bump_config_version_and_hash(&mut self)
        ensures
            *final(self) == old(self).config_bumped(),
    {
        self.config_version = self.config_version.saturating_add(1);
        self.recompute_config_hash();
    }
}

} // verus!

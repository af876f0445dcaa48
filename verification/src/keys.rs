//! Account addresses: 32 bytes that name a signer or an account.

use vstd::prelude::*;
use vstd::array::spec_array_fill_for_copy_type;

verus! {

/// A 32-byte account address. The address of all zeros stands for "none".
#[derive(Clone, Copy, Debug, PartialEq, Eq, Hash)]
pub struct Address {
    pub bytes: [u8; 32],
}

impl View for Address {
    type V = Seq<u8>;

    open spec fn view(&self) -> Seq<u8> {
        self.bytes@
    }
}

impl Address {
    /// Whether this is the address of all zeros.
    pub open spec fn is_none(&self) -> bool {
        forall|i: int| 0 <= i < 32 ==> self@[i] == 0u8
    }

    /// The address of all zeros.
    pub open spec fn spec_none() -> Address {
        Address { bytes: spec_array_fill_for_copy_type::<u8, 32>(0u8) }
    }

    /// The address of all zeros.
    #[verifier::when_used_as_spec(spec_none)]
    pub fn none() -> (a: Address)
        ensures
            a == Address::spec_none(),
            a.is_none(),
    {
        broadcast use vstd::array::group_array_axioms;

        Address { bytes: [0u8; 32] }
    }

    /// An address from its bytes.
    pub fn new(bytes: [u8; 32]) -> (a: Address)
        ensures
            a.bytes == bytes,
    {
        Address { bytes }
    }

    /// Whether two addresses hold the same bytes.
    pub fn same_as(&self, other: &Address) -> (same: bool)
        ensures
            same == (self@ == other@),
            same == (*self == *other),
    {
        let mut i: usize = 0;
        while i < 32
            invariant
                0 <= i <= 32,
                forall|k: int| 0 <= k < i ==> self@[k] == other@[k],
            decreases 32 - i,
        {
            if self.bytes[i] != other.bytes[i] {
                return false;
            }
            i = i + 1;
        }
        proof {
            assert(self@ =~= other@);
            assert(self.bytes =~= other.bytes);
        }
        true
    }

    /// Whether this is the address of all zeros.
    pub fn is_unset(&self) -> (unset: bool)
        ensures
            unset == self.is_none(),
    {
        let mut i: usize = 0;
        while i < 32
            invariant
                0 <= i <= 32,
                forall|k: int| 0 <= k < i ==> self@[k] == 0u8,
            decreases 32 - i,
        {
            if self.bytes[i] != 0 {
                assert(self@[i as int] != 0u8);
                return false;
            }
            i = i + 1;
        }
        true
    }
}

} // verus!

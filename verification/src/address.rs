//! Identities of accounts, mints and programs.

use vstd::prelude::*;

verus! {

/// The identity of an account, a mint or a program: 32 bytes.
#[derive(Clone, Copy, Debug, Eq, Hash)]
pub struct Address {
    pub bytes: [u8; 32],
}

impl Address {
    /// The address made of the given bytes.
    pub fn new(bytes: [u8; 32]) -> (address: Address)
        ensures
            address.bytes == bytes,
    {
        Address { bytes }
    }

    /// The bytes of the address.
    pub fn to_bytes(&self) -> (bytes: [u8; 32])
        ensures
            bytes == self.bytes,
    {
        self.bytes
    }
}

impl View for Address {
    type V = Seq<u8>;

    /// An address is seen as the sequence of its 32 bytes.
    open spec fn view(&self) -> Seq<u8> {
        self.bytes@
    }
}

/// Addresses with the same bytes are the same address.
pub proof fn lemma_address_by_bytes(a: Address, b: Address)
    ensures
        a@.len() == 32,
        a@ == b@ <==> a == b,
{
    if a@ == b@ {
        assert forall|i: int| 0 <= i < 32 implies a.bytes[i] == b.bytes[i] by {
            assert(a.bytes@[i] == b.bytes@[i]);
        }
        assert(a.bytes =~= b.bytes);
    }
}

impl PartialEq for Address {
    /// Two addresses are equal when all their bytes are.
    fn eq(&self, other: &Address) -> (same: bool) {
        let mut i: usize = 0;
        while i < 32
            invariant
                i <= 32,
                forall|j: int| 0 <= j < i ==> self.bytes[j] == other.bytes[j],
            decreases 32 - i,
        {
            if self.bytes[i] != other.bytes[i] {
                return false;
            }
            i += 1;
        }
        assert(self.bytes =~= other.bytes);
        true
    }
}

impl vstd::std_specs::cmp::PartialEqSpecImpl for Address {
    open spec fn obeys_eq_spec() -> bool {
        true
    }

    open spec fn eq_spec(&self, other: &Address) -> bool {
        *self == *other
    }
}

} // verus!

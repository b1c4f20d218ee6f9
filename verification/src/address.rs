//! Account addresses.

use vstd::prelude::*;
use vstd::std_specs::cmp::PartialEqSpecImpl;

verus! {

/// A 160-bit account address, as its twenty bytes.
#[derive(Clone, Copy, Debug, Eq)]
pub struct Address {
    pub bytes: [u8; 20],
}

impl Address {
    /// The address whose bytes are all zero.
    pub open spec fn zero_address() -> Address {
        Address { bytes: vstd::array::spec_array_fill_for_copy_type::<u8, 20>(0u8) }
    }

    /// Whether every byte of the address is zero.
    pub open spec fn is_zero(self) -> bool {
        forall|i: int| 0 <= i < 20 ==> self.bytes[i] == 0u8
    }

    /// The zero address is the one address whose bytes are all zero.
    pub proof fn lemma_zero_unique(self)
        ensures
            self.is_zero() <==> self == Address::zero_address(),
    {
        broadcast use vstd::array::group_array_axioms;

        if self.is_zero() {
            assert(self.bytes =~= Address::zero_address().bytes);
        }
    }

    /// The address with the given bytes.
    pub fn new(bytes: [u8; 20]) -> (r: Address)
        ensures
            r.bytes == bytes,
    {
        Address { bytes }
    }

    /// The address whose bytes are all zero.
    pub fn zero() -> (r: Address)
        ensures
            r == Address::zero_address(),
            r.is_zero(),
    {
        let r = Address { bytes: [0u8; 20] };
        proof {
            r.lemma_zero_unique();
        }
        r
    }
}

impl PartialEq for Address {
    /// Two addresses are equal when their bytes are.
    fn eq(&self, other: &Address) -> (r: bool) {
        let mut i: usize = 0;
        while i < 20
            invariant
                0 <= i <= 20,
                forall|j: int| 0 <= j < i ==> self.bytes[j] == other.bytes[j],
            decreases 20 - i,
        {
            if self.bytes[i] != other.bytes[i] {
                return false;
            }
            i += 1;
        }
        proof {
            broadcast use vstd::array::group_array_axioms;

            assert(self.bytes =~= other.bytes);
        }
        true
    }
}

impl PartialEqSpecImpl for Address {
    open spec fn obeys_eq_spec() -> bool {
        true
    }

    open spec fn eq_spec(&self, other: &Address) -> bool {
        *self == *other
    }
}


} // verus!

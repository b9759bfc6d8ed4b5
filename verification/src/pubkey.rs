//! The 32-byte key that names an account.

use vstd::prelude::*;
use vstd::std_specs::cmp::PartialEqSpecImpl;

verus! {

/// The key of an account: 32 bytes. The key of 32 zero bytes names no
/// account and marks a slot that nothing occupies.
#[derive(Clone, Copy, Debug, Eq, Hash)]
pub struct Pubkey {
    pub bytes: [u8; 32],
}

impl PartialEq for Pubkey {
    fn eq(&self, other: &Self) -> (result: bool) {
        let mut i: usize = 0;
        while i < 32
            invariant
                i <= 32,
                forall|j: int| 0 <= j < i ==> self.bytes[j] == other.bytes[j],
            decreases 32 - i,
        {
            if self.bytes[i] != other.bytes[i] {
                return false;
            }
            i = i + 1;
        }
        proof {
            assert(self.bytes =~= other.bytes);
        }
        true
    }
}

impl PartialEqSpecImpl for Pubkey {
    open spec fn obeys_eq_spec() -> bool {
        true
    }

    open spec fn eq_spec(&self, other: &Self) -> bool {
        *self == *other
    }
}

impl Pubkey {
    /// The key of 32 zero bytes.
    pub open spec fn zero() -> Pubkey {
        Pubkey { bytes: vstd::array::spec_array_fill_for_copy_type::<u8, 32>(0u8) }
    }

    /// The key made of the given bytes.
    pub fn new_from_array(bytes: [u8; 32]) -> (result: Pubkey)
        ensures
            result.bytes == bytes,
    {
        Pubkey { bytes }
    }

    /// The bytes of the key.
    pub fn to_bytes(&self) -> (result: [u8; 32])
        ensures
            result == self.bytes,
    {
        self.bytes
    }
}

impl Default for Pubkey {
    fn default() -> (result: Pubkey)
        ensures
            result == Pubkey::zero(),
    {
        Pubkey { bytes: [0u8; 32] }
    }
}

} // verus!

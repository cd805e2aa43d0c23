//! Account addresses as the program's logic sees them: 32 raw bytes.

use vstd::prelude::*;

verus! {

/// A 32-byte account address (an ed25519 public key or a program derived address).
#[derive(Clone, Copy, Debug)]
pub struct Pubkey {
    pub bytes: [u8; 32],
}

impl Pubkey {
    /// Whether every byte of the address is zero.
    pub open spec fn is_zero(self) -> bool {
        forall|i: int| 0 <= i < 32 ==> #[trigger] self.bytes@[i] == 0u8
    }

    /// Builds an address from its 32 bytes.
    pub fn new_from_array(bytes: [u8; 32]) -> (r: Pubkey)
        ensures
            r.bytes == bytes,
    {
        Pubkey { bytes }
    }

    /// The 32 bytes of the address.
    pub fn to_bytes(&self) -> (r: [u8; 32])
        ensures
            r == self.bytes,
    {
        self.bytes
    }
}

/// Two addresses are equal when their 32 bytes are.
pub proof fn lemma_pubkey_eq_by_bytes(a: Pubkey, b: Pubkey)
    requires
        forall|i: int| 0 <= i < 32 ==> #[trigger] a.bytes@[i] == b.bytes@[i],
    ensures
        a == b,
{
    broadcast use vstd::array::axiom_array_ext_equal, vstd::array::array_len_matches_n;
    assert(a.bytes =~= b.bytes);
}

impl PartialEq for Pubkey {
    fn eq(&self, other: &Pubkey) -> (r: bool) {
        let mut i: usize = 0;
        while i < 32
            invariant
                0 <= i <= 32,
                forall|j: int| 0 <= j < i ==> self.bytes@[j] == other.bytes@[j],
            decreases 32 - i,
        {
            if self.bytes[i] != other.bytes[i] {
                return false;
            }
            i = i + 1;
        }
        proof {
            lemma_pubkey_eq_by_bytes(*self, *other);
        }
        true
    }
}

impl Eq for Pubkey {}

impl vstd::std_specs::cmp::PartialEqSpecImpl for Pubkey {
    open spec fn obeys_eq_spec() -> bool {
        true
    }

    open spec fn eq_spec(&self, other: &Pubkey) -> bool {
        *self == *other
    }
}

impl Default for Pubkey {
    /// The all-zero address.
    fn default() -> (r: Pubkey)
        ensures
            r.is_zero(),
    {
        let r = Pubkey { bytes: [0u8; 32] };
        proof {
            broadcast use vstd::array::axiom_spec_array_fill_for_copy_type;
        }
        r
    }
}

} // verus!

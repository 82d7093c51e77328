use vstd::prelude::*;
use vstd::std_specs::cmp::PartialEqSpecImpl;

verus! {

/// A 32-byte identity of an account, a party or a program.
#[derive(Clone, Copy, Debug, Eq)]
pub struct Address {
    pub bytes: [u8; 32],
}

impl PartialEq for Address {
    /// Two addresses are equal when all 32 bytes agree.
    fn eq(&self, other: &Address) -> (r: bool) {
        let mut i: usize = 0;
        while i < 32
            invariant
                i <= 32,
                forall|j: int| 0 <= j < i ==> self.bytes@[j] == other.bytes@[j],
            decreases 32 - i,
        {
            if self.bytes[i] != other.bytes[i] {
                return false;
            }
            i += 1;
        }
        assert(self.bytes =~= other.bytes);
        true
    }
}

impl PartialEqSpecImpl for Address {
    open spec fn obeys_eq_spec() -> bool {
        true
    }

    open spec fn eq_spec(&self, other: &Address) -> bool {
        *self == *other
    }
}

impl Address {
    /// The address made of 32 given bytes.
    pub open spec fn of(bytes: Seq<u8>) -> Address
        recommends
            bytes.len() == 32,
    {
        Address { bytes: choose|a: [u8; 32]| (#[trigger] a.view()) == bytes }
    }

    /// An address is made of its own bytes.
    pub proof fn lemma_of_own_bytes(self)
        ensures
            Address::of(self.bytes@) == self,
    {
        let chosen = choose|a: [u8; 32]| (#[trigger] a.view()) == self.bytes@;
        assert(chosen =~= self.bytes);
    }

    /// The address made of 32 bytes has those bytes.
    pub proof fn lemma_bytes_of(bytes: Seq<u8>)
        requires
            bytes.len() == 32,
        ensures
            Address::of(bytes).bytes@ == bytes,
    {
        let a = array_upto(bytes, 32);
        lemma_array_upto(bytes, 32);
        assert(a@ =~= bytes);
    }
}

/// An array whose first `n` bytes are those of `bytes`.
spec fn array_upto(bytes: Seq<u8>, n: nat) -> [u8; 32]
    decreases n,
{
    if n == 0 {
        arbitrary()
    } else {
        vstd::array::spec_array_update(array_upto(bytes, (n - 1) as nat), n - 1, bytes[n - 1])
    }
}

proof fn lemma_array_upto(bytes: Seq<u8>, n: nat)
    requires
        n <= 32,
        bytes.len() == 32,
    ensures
        forall|i: int| 0 <= i < n ==> array_upto(bytes, n)@[i] == bytes[i],
    decreases n,
{
    if n > 0 {
        lemma_array_upto(bytes, (n - 1) as nat);
    }
}

} // verus!

use vstd::prelude::*;

verus! {

/// A 32-byte ledger address: the identity of a wallet, a program, a token
/// mint, or a derived sub-account. Two addresses are the same exactly when
/// their bytes are.
#[derive(Clone, Copy, Debug, PartialEq, Eq, Hash)]
pub struct Address {
    pub bytes: [u8; 32],
}

impl View for Address {
    type V = Seq<u8>;

    open spec fn view(&self) -> Seq<u8> {
        self.bytes@
    }
}

/// The all-zero address, used where a field holds no real address yet
/// (a ticket whose token mint was never bound).
pub open spec fn zero_address() -> Seq<u8> {
    Seq::new(32, |i: int| 0u8)
}

impl Address {
    pub fn new(bytes: [u8; 32]) -> (r: Address)
        ensures
            r@ == bytes@,
    {
        Address { bytes }
    }

    pub fn zero() -> (r: Address)
        ensures
            r@ == zero_address(),
    {
        let bytes = vstd::array::array_fill_for_copy_types::<u8, 32>(0u8);
        let r = Address { bytes };
        proof {
            assert(r@ =~= zero_address());
        }
        r
    }

    /// Byte-for-byte equality of two addresses.
    pub fn same(&self, other: &Address) -> (r: bool)
        ensures
            r <==> self@ == other@,
    {
        let mut i: usize = 0;
        while i < 32
            invariant
                i <= 32,
                forall|j: int| 0 <= j < i ==> self@[j] == other@[j],
            decreases 32 - i,
        {
            if self.bytes[i] != other.bytes[i] {
                return false;
            }
            i = i + 1;
        }
        proof {
            assert(self@ =~= other@);
        }
        true
    }
}

} // verus!

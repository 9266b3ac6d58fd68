use vstd::prelude::*;

verus! {

/// A 32-byte account address (an ed25519 public key or a program-derived
/// address).
#[derive(Clone, Copy, Debug)]
pub struct Address(pub [u8; 32]);

impl View for Address {
    type V = Seq<u8>;

    open spec fn view(&self) -> Seq<u8> {
        self.0@
    }
}

impl Address {
    /// The all-zero address, which is what a freshly created account holds in
    /// every address field.
    pub open spec fn spec_zero() -> Seq<u8> {
        Seq::new(32, |_i: int| 0u8)
    }

    /// The all-zero address.
    pub fn zero() -> (r: Address)
        ensures
            r@ == Self::spec_zero(),
    {
        let r = Address([0u8; 32]);
        assert(r@ =~= Self::spec_zero());
        r
    }

    /// Whether two addresses hold the same bytes.
    pub fn same_as(&self, other: &Address) -> (r: bool)
        ensures
            r == (self@ == other@),
    {
        let mut i: usize = 0;
        while i < 32
            invariant
                0 <= i <= 32,
                self@.len() == 32,
                other@.len() == 32,
                forall|j: int| 0 <= j < i ==> self@[j] == other@[j],
            decreases 32 - i,
        {
            if self.0[i] != other.0[i] {
                assert(self@[i as int] != other@[i as int]);
                return false;
            }
            i = i + 1;
        }
        assert(self@ =~= other@);
        true
    }

    /// Whether this is the all-zero address.
    pub fn is_zero(&self) -> (r: bool)
        ensures
            r == (self@ == Self::spec_zero()),
    {
        let z = Address::zero();
        self.same_as(&z)
    }
}

} // verus!

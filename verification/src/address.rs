use vstd::prelude::*;

verus! {

/// The address of an account on the ledger: 32 bytes, compared byte for byte.
#[derive(Clone, Copy, Debug, PartialEq, Eq, Hash)]
pub struct Address {
    pub bytes: [u8; 32],
}

impl View for Address {
    type V = Seq<u8>;

    open spec fn view(&self) -> Seq<u8> {
        self.bytes@
    }
}

/// Two byte arrays of one length are the same array when they hold the same bytes.
pub proof fn lemma_address_extensional(a: Address, b: Address)
    requires
        a@ == b@,
    ensures
        a == b,
{
    assert(a.bytes =~= b.bytes);
}

/// Whether two byte slices hold the same bytes.
pub fn bytes_equal(a: &[u8], b: &[u8]) -> (r: bool)
    ensures
        r == (a@ == b@),
{
    if a.len() != b.len() {
        return false;
    }
    let mut i: usize = 0;
    while i < a.len()
        invariant
            a.len() == b.len(),
            i <= a.len(),
            forall|j: int| 0 <= j < i ==> a@[j] == b@[j],
        decreases a.len() - i,
    {
        if a[i] != b[i] {
            return false;
        }
        i += 1;
    }
    assert(a@ =~= b@);
    true
}

impl Address {
    /// The address made of the given bytes.
    pub fn new(bytes: [u8; 32]) -> (r: Address)
        ensures
            r.bytes == bytes,
    {
        Address { bytes }
    }

    /// The all-zero address, which stands for "no account".
    pub open spec fn spec_unset() -> Address {
        Address { bytes: vstd::array::spec_array_fill_for_copy_type::<u8, 32>(0u8) }
    }

    /// The all-zero address.
    pub fn unset() -> (r: Address)
        ensures
            r == Self::spec_unset(),
    {
        Address { bytes: [0u8; 32] }
    }

    /// Whether this is the all-zero address.
    pub fn is_unset(&self) -> (r: bool)
        ensures
            r == (*self == Self::spec_unset()),
    {
        let zero = Address::unset();
        self.equals(&zero)
    }

    /// Whether this address and `other` are the same address.
    pub fn equals(&self, other: &Address) -> (r: bool)
        ensures
            r == (*self == *other),
    {
        let r = bytes_equal(self.bytes.as_slice(), other.bytes.as_slice());
        proof {
            if r {
                lemma_address_extensional(*self, *other);
            }
        }
        r
    }
}

} // verus!

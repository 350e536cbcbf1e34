//! Accounts and signatures as plain bytes.

use vstd::prelude::*;
use vstd::std_specs::cmp::PartialEqSpecImpl;

verus! {

/// A 20-byte account address.
#[derive(Clone, Copy, Debug, Eq)]
pub struct Address(pub [u8; 20]);

/// An ECDSA signature over a 32-byte digest.
#[derive(Clone, Copy, Debug)]
pub struct Signature {
    pub r: [u8; 32],
    pub s: [u8; 32],
    pub v: u8,
}

/// Whether two arrays hold the same bytes.
pub fn same_bytes<const N: usize>(a: &[u8; N], b: &[u8; N]) -> (r: bool)
    ensures
        r == (a@ == b@),
{
    let mut i: usize = 0;
    while i < N
        invariant
            i <= N,
            forall|j: int| 0 <= j < i ==> a@[j] == b@[j],
        decreases N - i,
    {
        if a[i] != b[i] {
            return false;
        }
        i += 1;
    }
    assert(a@ =~= b@);
    true
}

impl View for Address {
    type V = Seq<u8>;

    open spec fn view(&self) -> Seq<u8> {
        self.0@
    }
}

impl PartialEq for Address {
    fn eq(&self, other: &Self) -> (r: bool) {
        same_bytes(&self.0, &other.0)
    }
}

impl PartialEqSpecImpl for Address {
    open spec fn obeys_eq_spec() -> bool {
        true
    }

    open spec fn eq_spec(&self, other: &Self) -> bool {
        self@ == other@
    }
}

impl Signature {
    /// The 65 bytes of the signature on the wire: `r`, then `s`, then `v`.
    pub open spec fn wire(&self) -> Seq<u8> {
        self.r@ + self.s@ + seq![self.v]
    }
}

} // verus!

//! The accounts of the proxy.

use crate::account::Address;
use vstd::prelude::*;

verus! {

/// The account is none of the wallet's.
#[derive(Clone, Copy, Debug)]
pub struct UnknownSignerError(pub Address);

/// The accounts of the proxy, in the order in which they were derived. The
/// place of an account in the list is the index of its key.
#[derive(Debug)]
pub struct Wallet {
    addresses: Vec<Address>,
}

impl Wallet {
    /// The accounts of the wallet.
    pub closed spec fn view(&self) -> Seq<Address> {
        self.addresses@
    }

    /// A wallet of the accounts derived at the indices from zero on, in
    /// their order.
    pub fn new(addresses: Vec<Address>) -> (wallet: Self)
        ensures
            wallet.view() == addresses@,
    {
        Self { addresses }
    }

    /// The accounts, in the order of their indices.
    pub fn accounts(&self) -> (r: &[Address])
        ensures
            r@ == self.view(),
    {
        self.addresses.as_slice()
    }

    /// The index of the key that signs for an account: the last place of
    /// the account in the list.
    pub fn sign(&self, account: Address) -> (r: Result<usize, UnknownSignerError>)
        ensures
            match r {
                Ok(index) => {
                    &&& index < self.view().len()
                    &&& self.view()[index as int]@ == account@
                    &&& forall|k: int| index < k < self.view().len() ==> self.view()[k]@ != account@
                },
                Err(e) => {
                    &&& e.0 == account
                    &&& forall|k: int| 0 <= k < self.view().len() ==> self.view()[k]@ != account@
                },
            },
    {
        let mut i: usize = self.addresses.len();
        while i > 0
            invariant
                i <= self.addresses.len(),
                forall|k: int| i <= k < self.addresses@.len() ==> self.addresses@[k]@ != account@,
            decreases i,
        {
            if self.addresses[i - 1] == account {
                return Ok(i - 1);
            }
            i -= 1;
        }
        Err(UnknownSignerError(account))
    }
}

} // verus!

//! Signers: what signs for the accounts of the proxy, and what is put around
//! it.

pub mod log_recorder;
pub mod validator;
pub mod wallet;

use crate::account::Address;
use crate::account::Signature;
use crate::node::transaction::Failure;
use crate::node::transaction::Transaction;
use crate::node::typeddata::TypedData;
use vstd::prelude::*;

verus! {

/// Why nothing was signed.
#[derive(Clone, Copy, Debug)]
pub enum SignError {
    /// The account is none of the signer's.
    UnknownSigner(Address),
    /// The policy did not allow it.
    Rejected,
    /// What was to be signed cannot be.
    Malformed,
    /// Anything else.
    Other,
}

impl SignError {
    /// What the client is told: its own error for an unknown account, a
    /// refusal of the policy and what cannot be signed, and else an internal
    /// one.
    pub open spec fn failure_spec(self) -> Failure {
        match self {
            SignError::Other => Failure::InternalError,
            _ => Failure::InvalidParams,
        }
    }

    /// What the client is told.
    pub fn failure(&self) -> (r: Failure)
        ensures
            r == self.failure_spec(),
    {
        match self {
            SignError::Other => Failure::InternalError,
            _ => Failure::InvalidParams,
        }
    }
}

/// What signs for a list of accounts. Where it says that an account is none
/// of its own, it is the account that it was asked for.
pub trait Signing {
    /// The accounts, in the order in which they were derived.
    fn accounts(&self) -> (r: &[Address]);

    /// Signs a message with the key of an account.
    fn sign_message(&self, account: Address, message: &[u8]) -> (r: Result<Signature, SignError>)
        ensures
            r matches Err(SignError::UnknownSigner(a)) ==> a == account,
    ;

    /// Signs a transaction with the key of an account.
    fn sign_transaction(&self, account: Address, transaction: &Transaction) -> (r: Result<
        Signature,
        SignError,
    >)
        ensures
            r matches Err(SignError::UnknownSigner(a)) ==> a == account,
    ;

    /// Signs typed data with the key of an account.
    fn sign_typed_data(&self, account: Address, typed_data: &TypedData) -> (r: Result<
        Signature,
        SignError,
    >)
        ensures
            r matches Err(SignError::UnknownSigner(a)) ==> a == account,
    ;
}

/// Whether a list of accounts is one that a signer gives as its own.
pub open spec fn lists<S: Signing>(signer: &S, accounts: &[Address]) -> bool {
    call_ensures(S::accounts, (signer,), accounts)
}

/// Whether a result is one that a signer gives when it is asked to sign a
/// message for an account.
pub open spec fn signs_message<S: Signing>(
    signer: &S,
    account: Address,
    message: &[u8],
    result: Result<Signature, SignError>,
) -> bool {
    call_ensures(S::sign_message, (signer, account, message), result)
}

/// Whether a result is one that a signer gives when it is asked to sign a
/// transaction for an account.
pub open spec fn signs_transaction<S: Signing>(
    signer: &S,
    account: Address,
    transaction: &Transaction,
    result: Result<Signature, SignError>,
) -> bool {
    call_ensures(S::sign_transaction, (signer, account, transaction), result)
}

/// Whether a result is one that a signer gives when it is asked to sign
/// typed data for an account.
pub open spec fn signs_typed_data<S: Signing>(
    signer: &S,
    account: Address,
    typed_data: &TypedData,
    result: Result<Signature, SignError>,
) -> bool {
    call_ensures(S::sign_typed_data, (signer, account, typed_data), result)
}

} // verus!

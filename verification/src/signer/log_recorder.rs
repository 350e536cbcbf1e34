//! A signer that says what was signed.

use crate::account::Address;
use crate::account::Signature;
use crate::node::transaction::Transaction;
use crate::node::typeddata::TypedData;
use crate::serialization::bytes_encode_spec;
use crate::serialization::encode_bytes;
use crate::serialization::Bytes;
use crate::signer::lists;
use crate::signer::signs_message;
use crate::signer::signs_transaction;
use crate::signer::signs_typed_data;
use crate::signer::SignError;
use crate::signer::Signing;
use vstd::prelude::*;

verus! {

/// A signer around another that signs as the other does, and puts into words
/// what was signed for the record. Each of its answers is the answer of the
/// signer inside to the same question.
#[derive(Debug)]
pub struct LogRecorder<S>(pub S);

/// What is put on record of a signature: the account, what was signed, and
/// the signature, each as text.
#[derive(Debug)]
pub struct Record {
    pub account: String,
    pub signed: String,
    pub signature: String,
}

impl<S> LogRecorder<S> {
    /// The record of a signed message: the account, the message and the
    /// signature in hex.
    pub fn message_record(account: Address, message: &[u8], signature: Signature) -> (record: Record)
        ensures
            record.account@ == bytes_encode_spec(account@),
            record.signed@ == bytes_encode_spec(message@),
            record.signature@ == bytes_encode_spec(signature.wire()),
    {
        Record {
            account: encode_bytes(account.0.as_slice()),
            signed: encode_bytes(message),
            signature: Bytes::from_signature(signature).encode_fixed(),
        }
    }
}

impl<S: Signing> Signing for LogRecorder<S> {
    fn accounts(&self) -> (r: &[Address])
        ensures
            lists(&self.0, r),
    {
        self.0.accounts()
    }

    fn sign_message(&self, account: Address, message: &[u8]) -> (r: Result<Signature, SignError>)
        ensures
            signs_message(&self.0, account, message, r),
    {
        self.0.sign_message(account, message)
    }

    fn sign_transaction(&self, account: Address, transaction: &Transaction) -> (r: Result<
        Signature,
        SignError,
    >)
        ensures
            signs_transaction(&self.0, account, transaction, r),
    {
        self.0.sign_transaction(account, transaction)
    }

    fn sign_typed_data(&self, account: Address, typed_data: &TypedData) -> (r: Result<
        Signature,
        SignError,
    >)
        ensures
            signs_typed_data(&self.0, account, typed_data, r),
    {
        self.0.sign_typed_data(account, typed_data)
    }
}

} // verus!

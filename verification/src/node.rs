//! The dispatcher of the proxy: which calls it answers itself, which it
//! passes on to the node, and how the answers of a batch come together.

pub mod eth;
pub mod transaction;
pub mod typeddata;
pub mod types;

use crate::account::Address;
use crate::account::Signature;
use crate::json::items_view;
use crate::json::json_parse;
use crate::json::json_text;
use crate::json::parse;
use crate::json::render;
use crate::json::Json;
use crate::json::JsonView;
use crate::jsonrpc::answers_to;
use crate::jsonrpc::json_request;
use crate::jsonrpc::json_requests;
use crate::jsonrpc::params_view;
use crate::jsonrpc::requests_from_json;
use crate::jsonrpc::requests_view;
use crate::jsonrpc::response_json;
use crate::jsonrpc::responses_json;
use crate::jsonrpc::responses_to_json;
use crate::jsonrpc::responses_view;
use crate::jsonrpc::text_view;
use crate::jsonrpc::Client;
use crate::jsonrpc::Error;
use crate::jsonrpc::ErrorView;
use crate::jsonrpc::Id;
use crate::jsonrpc::IdView;
use crate::jsonrpc::JsonRpc;
use crate::jsonrpc::Params;
use crate::jsonrpc::ParamsView;
use crate::jsonrpc::Request;
use crate::jsonrpc::RequestView;
use crate::jsonrpc::Response;
use crate::jsonrpc::ResponseView;
use crate::jsonrpc::TransportError;
use crate::jsonrpc::INTERNAL_ERROR;
use crate::jsonrpc::INVALID_PARAMS;
use crate::jsonrpc::INVALID_REQUEST;
use crate::jsonrpc::PARSE_ERROR;
use crate::node::eth::quantity_at;
use crate::node::eth::read_quantity;
use crate::node::eth::Eth;
use crate::node::transaction::address_from_json;
use crate::node::transaction::bytes_json;
use crate::node::transaction::bytes_of_json;
use crate::node::transaction::fill_spec;
use crate::node::transaction::fixed_of_json;
use crate::node::transaction::json_transaction;
use crate::node::transaction::number;
use crate::node::transaction::plan_spec;
use crate::node::transaction::Failure;
use crate::node::transaction::Filling;
use crate::node::transaction::Transaction;
use crate::node::transaction::TransactionRequest;
use crate::node::typeddata::domain_chain_id;
use crate::node::typeddata::verify_spec;
use crate::node::typeddata::TypedData;
use crate::serialization::addresses_json;
use crate::serialization::encode_bytes;
use crate::serialization::Addresses;
use crate::serialization::Bytes;
use crate::signer::SignError;
use vstd::prelude::*;

verus! {

/// What a body of JSON is: one request, a batch of requests, or neither.
#[derive(Debug)]
pub enum Input {
    Request(Request),
    Batch(Vec<Request>),
    Unrecognized(Json),
}

/// What is sent back: one response, or those of a batch.
#[derive(Debug)]
pub enum Output {
    Response(Response),
    Batch(Vec<Response>),
}

/// What of a request is kept for its answer.
#[derive(Debug)]
pub struct Envelope {
    pub jsonrpc: JsonRpc,
    pub id: Id,
}

/// How a request ends at the proxy.
#[derive(Debug)]
pub enum Outcome {
    /// The proxy has the answer.
    Internal(Response),
    /// The node has the answer, to this request.
    Remote(Request),
}

/// What a handler makes of a call.
#[derive(Debug)]
pub enum Handled {
    /// The result of the call.
    Internal(Json),
    /// The method and parameters of the call that the node is to answer.
    Remote(String, Option<Params>),
}

/// The methods that the proxy knows.
#[derive(Clone, Copy, Debug, PartialEq, Eq, Structural)]
pub enum Method {
    Accounts,
    SendTransaction,
    SignTransaction,
    Sign,
    SignTypedData,
    /// Any other method: the node answers it.
    Other,
}

/// What the signer or the node is waited for before a request is answered.
#[allow(inconsistent_fields)]
#[derive(Debug)]
pub enum Pending {
    /// The signature of a message.
    Message { envelope: Envelope, account: Address, message: Vec<u8> },
    /// The chain of the node, asked for with the request, before typed data
    /// is signed.
    TypedDataChain {
        envelope: Envelope,
        account: Address,
        typed_data: TypedData,
        requests: Vec<Request>,
    },
    /// The signature of typed data.
    TypedData { envelope: Envelope, account: Address, typed_data: TypedData },
    /// The node's answers to the requests that fill a transaction.
    Filling { envelope: Envelope, send: bool, filling: Filling, requests: Vec<Request> },
    /// The signed transaction in its encoding.
    Transaction { envelope: Envelope, send: bool, account: Address, transaction: Transaction },
}

/// Where a request stands: it has ended, or something is waited for.
#[derive(Debug)]
pub enum Step {
    Done(Outcome),
    Wait(Pending),
}

/// What came of what was waited for.
#[derive(Debug)]
pub enum Event {
    /// The node's answers to the requests, or why there are none.
    Answers(Result<Vec<Response>, TransportError>),
    /// The signature of a message or of typed data.
    Signature(Result<Signature, SignError>),
    /// The signed transaction in its encoding.
    Signed(Result<Vec<u8>, SignError>),
}

/// The method of a name.
pub open spec fn method_of(name: Seq<char>) -> Method {
    if name == "eth_accounts"@ {
        Method::Accounts
    } else if name == "eth_sendTransaction"@ {
        Method::SendTransaction
    } else if name == "eth_signTransaction"@ {
        Method::SignTransaction
    } else if name == "eth_sign"@ {
        Method::Sign
    } else if name == "eth_signTypedData"@ {
        Method::SignTypedData
    } else {
        Method::Other
    }
}

/// The error that the client is told for a failure.
pub open spec fn failure_error(failure: Failure) -> ErrorView {
    match failure {
        Failure::InvalidParams => ErrorView {
            code: INVALID_PARAMS,
            message: "Invalid params"@,
            data: None,
        },
        Failure::InternalError => ErrorView {
            code: INTERNAL_ERROR,
            message: "Internal error"@,
            data: None,
        },
    }
}

/// The parameters by position, where they are given so.
pub open spec fn positional(params: Option<ParamsView>) -> Option<Seq<JsonView>> {
    match params {
        Some(ParamsView::Array(items)) => Some(items),
        _ => None,
    }
}

/// The parameters of `eth_sign`: an account and the bytes of a message.
pub open spec fn sign_params(params: Option<ParamsView>) -> Option<(Seq<u8>, Seq<u8>)> {
    match positional(params) {
        Some(items) => if items.len() == 2 {
            match (fixed_of_json(items[0], 20), bytes_of_json(items[1])) {
                (Some(account), Some(message)) => Some((account, message)),
                _ => None,
            }
        } else {
            None
        },
        None => None,
    }
}

/// The parameters of `eth_signTypedData`: an account, the typed data, and
/// the chain that its domain names.
pub open spec fn typed_params(params: Option<ParamsView>) -> Option<
    (Seq<u8>, JsonView, Option<nat>),
> {
    match positional(params) {
        Some(items) => if items.len() == 2 {
            match (fixed_of_json(items[0], 20), domain_chain_id(items[1])) {
                (Some(account), Some(chain_id)) => Some((account, items[1], chain_id)),
                _ => None,
            }
        } else {
            None
        },
        None => None,
    }
}

/// The parameter of `eth_sendTransaction` and `eth_signTransaction`: a
/// transaction request.
pub open spec fn transaction_params(params: Option<ParamsView>) -> Option<
    crate::node::transaction::TransactionRequestView,
> {
    match positional(params) {
        Some(items) => if items.len() == 1 {
            json_transaction(items[0])
        } else {
            None
        },
        None => None,
    }
}

/// The call that sends a signed transaction.
pub open spec fn raw_call(raw: Seq<u8>, id: IdView) -> RequestView {
    RequestView {
        method: "eth_sendRawTransaction"@,
        params: Some(ParamsView::Array(seq![bytes_json(raw)])),
        id,
    }
}

impl Outcome {
    /// The id under which the request ends.
    pub open spec fn id(&self) -> IdView {
        match self {
            Outcome::Internal(response) => response@.id,
            Outcome::Remote(request) => request@.id,
        }
    }
}

impl Pending {
    /// The id of the request that waits.
    pub open spec fn id(&self) -> IdView {
        match self {
            Pending::Message { envelope, .. } => envelope.id@,
            Pending::TypedDataChain { envelope, .. } => envelope.id@,
            Pending::TypedData { envelope, .. } => envelope.id@,
            Pending::Filling { envelope, .. } => envelope.id@,
            Pending::Transaction { envelope, .. } => envelope.id@,
        }
    }
}

impl Step {
    /// The id of the request.
    pub open spec fn id(&self) -> IdView {
        match self {
            Step::Done(outcome) => outcome.id(),
            Step::Wait(pending) => pending.id(),
        }
    }

    /// Whether the request has ended with the error of a failure.
    pub open spec fn failed(&self, failure: Failure) -> bool {
        self matches Step::Done(Outcome::Internal(response)) && response@.result == Err::<
            JsonView,
            ErrorView,
        >(failure_error(failure))
    }

    /// Whether the request has ended with a result.
    pub open spec fn answered(&self, result: JsonView) -> bool {
        self matches Step::Done(Outcome::Internal(response)) && response@.result == Ok::<
            JsonView,
            ErrorView,
        >(result)
    }
}

/// The method of a name.
pub fn classify(name: &str) -> (method: Method)
    ensures
        method == method_of(name@),
{
    let name = name.to_owned();
    if name == "eth_accounts".to_owned() {
        Method::Accounts
    } else if name == "eth_sendTransaction".to_owned() {
        Method::SendTransaction
    } else if name == "eth_signTransaction".to_owned() {
        Method::SignTransaction
    } else if name == "eth_sign".to_owned() {
        Method::Sign
    } else if name == "eth_signTypedData".to_owned() {
        Method::SignTypedData
    } else {
        Method::Other
    }
}

/// The error that the client is told for a failure.
pub fn error_of(failure: Failure) -> (error: Error)
    ensures
        error@ == failure_error(failure),
{
    match failure {
        Failure::InvalidParams => Error::invalid_params(),
        Failure::InternalError => Error::internal_error(),
    }
}

/// The answer to the request of an envelope.
pub fn respond(envelope: Envelope, result: Result<Json, Failure>) -> (response: Response)
    ensures
        response@.id == envelope.id@,
        response.jsonrpc == envelope.jsonrpc,
        match result {
            Ok(value) => response@.result == Ok::<JsonView, ErrorView>(value@),
            Err(failure) => response@.result == Err::<JsonView, ErrorView>(failure_error(failure)),
        },
{
    let result = match result {
        Ok(value) => Ok(value),
        Err(failure) => Err(error_of(failure)),
    };
    Response { jsonrpc: envelope.jsonrpc, result, id: envelope.id }
}

/// The items of parameters by position.
pub fn positional_items(params: &Option<Params>) -> (r: Option<&Vec<Json>>)
    ensures
        match r {
            Some(items) => positional(params_view(*params)) == Some(items_view(items@)),
            None => positional(params_view(*params)) is None,
        },
{
    match params {
        Some(Params::Array(items)) => Some(items),
        _ => None,
    }
}

/// Reads the parameters of `eth_sign`.
pub fn decode_sign(params: &Option<Params>) -> (r: Option<(Address, Vec<u8>)>)
    ensures
        match r {
            Some((account, message)) => sign_params(params_view(*params)) == Some(
                (account@, message@),
            ),
            None => sign_params(params_view(*params)) is None,
        },
{
    let items = match positional_items(params) {
        Some(items) => items,
        None => { return None; },
    };
    if items.len() != 2 {
        return None;
    }
    let account = match address_from_json(&items[0]) {
        Some(account) => account.0,
        None => { return None; },
    };
    let message = match items[1].as_text() {
        Some(text) => match Bytes::<Vec<u8>>::decode(text.as_str()) {
            Ok(bytes) => bytes.0,
            Err(_) => { return None; },
        },
        None => { return None; },
    };
    Some((account, message))
}

/// Reads the parameters of `eth_signTypedData`.
pub fn decode_typed(params: &Option<Params>) -> (r: Option<(Address, TypedData)>)
    ensures
        match r {
            Some((account, typed_data)) => typed_params(params_view(*params)) == Some(
                (account@, typed_data.raw@, number(typed_data.chain_id)),
            ),
            None => typed_params(params_view(*params)) is None,
        },
{
    let items = match positional_items(params) {
        Some(items) => items,
        None => { return None; },
    };
    if items.len() != 2 {
        return None;
    }
    let account = match address_from_json(&items[0]) {
        Some(account) => account.0,
        None => { return None; },
    };
    let typed_data = match TypedData::from_json(items[1].clone()) {
        Some(typed_data) => typed_data,
        None => { return None; },
    };
    Some((account, typed_data))
}

/// Reads the parameter of `eth_sendTransaction` and `eth_signTransaction`.
pub fn decode_transaction(params: &Option<Params>) -> (r: Option<TransactionRequest>)
    ensures
        match r {
            Some(request) => transaction_params(params_view(*params)) == Some(request@),
            None => transaction_params(params_view(*params)) is None,
        },
{
    let items = match positional_items(params) {
        Some(items) => items,
        None => { return None; },
    };
    if items.len() != 1 {
        return None;
    }
    TransactionRequest::from_json(&items[0])
}

impl Handled {
    /// The result, where the call was answered here.
    pub fn into_internal(self) -> (r: Option<Json>)
        ensures
            match self {
                Handled::Internal(value) => r == Some(value),
                Handled::Remote(_, _) => r is None,
            },
    {
        match self {
            Handled::Internal(value) => Some(value),
            Handled::Remote(_, _) => None,
        }
    }

    /// What is made of an encoded signed transaction: the call that sends
    /// it, or the encoding as the result.
    pub fn internal(send: bool, raw: &Vec<u8>) -> (handled: Self)
        ensures
            match handled {
                Handled::Internal(value) => !send && value@ == bytes_json(raw@),
                Handled::Remote(method, params) => send && method@ == "eth_sendRawTransaction"@
                    && params_view(params) == Some(ParamsView::Array(seq![bytes_json(raw@)])),
            },
    {
        let encoded = Json::String(encode_bytes(raw.as_slice()));
        if send {
            let mut items: Vec<Json> = Vec::new();
            items.push(encoded);
            assert(items_view(items@) =~= seq![bytes_json(raw@)]);
            Handled::Remote("eth_sendRawTransaction".to_owned(), Some(Params::Array(items)))
        } else {
            Handled::Internal(encoded)
        }
    }
}

/// The proxy: its accounts and the node behind it.
#[derive(Debug)]
pub struct Node {
    pub accounts: Vec<Address>,
    pub remote: Eth,
}

impl Node {
    /// A proxy for the accounts of a signer, in their order, in front of a
    /// node.
    pub fn new(accounts: Vec<Address>, remote: Eth) -> (node: Self)
        ensures
            node.accounts == accounts,
            node.remote == remote,
    {
        Self { accounts, remote }
    }

    /// How a request ends that the node was asked to answer: with the
    /// node's answer, and with an internal error under the request's id where
    /// there is none.
    pub fn handle_request(request: Request, answer: Result<Response, TransportError>) -> (response:
        Response)
        ensures
            match answer {
                Ok(answer) => response == answer,
                Err(_) => response@.id == request@.id && response@.result == Err::<
                    JsonView,
                    ErrorView,
                >(failure_error(Failure::InternalError)),
            },
    {
        match answer {
            Ok(response) => response,
            Err(_) => respond(
                Envelope { jsonrpc: request.jsonrpc, id: request.id },
                Err(Failure::InternalError),
            ),
        }
    }

    /// Takes a request as far as it goes without the signer and the node.
    /// A method that the proxy does not know goes to the node as it is.
    /// `eth_accounts` is answered with the accounts. For the signing methods
    /// the parameters are read, and where they are what the method takes,
    /// the request waits: for the signer, or first for the node where a
    /// transaction has to be filled or the chain is not known yet. A request
    /// that cannot be read, and a transaction that names a gas price and a
    /// fee of the fee market, end with the client's own error.
    pub fn mux(&mut self, request: Request) -> (step: Step)
        ensures
            step.id() == request@.id,
            final(self).accounts == old(self).accounts,
            final(self).remote.client == old(self).remote.client,
            final(self).remote.chain_id_cache == old(self).remote.chain_id_cache,
            match method_of(request@.method) {
                Method::Other => step matches Step::Done(Outcome::Remote(forward)) && forward@
                    == request@ && final(self).remote == old(self).remote,
                Method::Accounts => final(self).remote == old(self).remote && (if positional(
                    request@.params,
                ) == Some(Seq::<JsonView>::empty()) {
                    step.answered(addresses_json(old(self).accounts@))
                } else {
                    step.failed(Failure::InvalidParams)
                }),
                Method::Sign => final(self).remote == old(self).remote && (match sign_params(
                    request@.params,
                ) {
                    Some((account, message)) => step matches Step::Wait(
                        Pending::Message { account: a, message: m, .. },
                    ) && a@ == account && m@ == message,
                    None => step.failed(Failure::InvalidParams),
                }),
                Method::SignTypedData => match typed_params(request@.params) {
                    None => step.failed(Failure::InvalidParams) && final(self).remote == old(
                        self,
                    ).remote,
                    Some((account, raw, None)) => step matches Step::Wait(
                        Pending::TypedData { account: a, typed_data, .. },
                    ) && a@ == account && typed_data.raw@ == raw && final(self).remote == old(
                        self,
                    ).remote,
                    Some((account, raw, Some(chain_id))) => match old(self).remote.chain_id_cache.0 {
                        Some(node) => final(self).remote == old(self).remote && (match verify_spec(
                            Some(chain_id),
                            node@,
                        ) {
                            Ok(_) => step matches Step::Wait(
                                Pending::TypedData { account: a, typed_data, .. },
                            ) && a@ == account && typed_data.raw@ == raw,
                            Err(failure) => step.failed(failure),
                        }),
                        None => step matches Step::Wait(
                            Pending::TypedDataChain { account: a, typed_data, requests, .. },
                        ) && a@ == account && typed_data.raw@ == raw && number(typed_data.chain_id)
                            == Some(chain_id) && requests@.len() == 1 && requests@[0]@
                            == crate::node::eth::call_view(
                            "eth_chainId"@,
                            Seq::empty(),
                            old(self).remote.ids,
                        ) && final(self).remote.ids == crate::node::eth::next_id(
                            old(self).remote.ids,
                        ),
                    },
                },
                _ => match transaction_params(request@.params) {
                    None => step.failed(Failure::InvalidParams) && final(self).remote == old(
                        self,
                    ).remote,
                    Some(transaction) => match plan_spec(transaction) {
                        Err(failure) => step.failed(failure) && final(self).remote == old(
                            self,
                        ).remote,
                        Ok(plan) => step matches Step::Wait(
                            Pending::Filling { send, filling, requests, .. },
                        ) && send == (method_of(request@.method) == Method::SendTransaction)
                            && filling.request@ == transaction && filling.placed(plan, requests@)
                            && crate::node::transaction::sent(
                            requests@,
                            crate::node::transaction::fill_calls(
                                transaction,
                                plan,
                                old(self).remote.chain_id_cache.0 is Some,
                            ),
                            old(self).remote.ids,
                        ) && final(self).remote.ids == crate::node::transaction::id_after(
                            old(self).remote.ids,
                            requests@.len(),
                        ),
                    },
                },
            },
    {
        let method = classify(request.method.as_str());
        if method == Method::Other {
            return Step::Done(Outcome::Remote(request));
        }
        let Request { jsonrpc, method: _, params, id } = request;
        let envelope = Envelope { jsonrpc, id };
        match method {
            Method::Accounts => {
                let empty = match positional_items(&params) {
                    Some(items) => {
                        assert(items@.len() == 0 ==> items_view(items@) =~= Seq::<JsonView>::empty());
                        items.len() == 0
                    },
                    None => false,
                };
                if empty {
                    let result = Addresses(self.accounts.as_slice()).to_json();
                    Step::Done(Outcome::Internal(respond(envelope, Ok(result))))
                } else {
                    Step::Done(Outcome::Internal(respond(envelope, Err(Failure::InvalidParams))))
                }
            },
            Method::Sign => match decode_sign(&params) {
                Some((account, message)) => Step::Wait(
                    Pending::Message { envelope, account, message },
                ),
                None => Step::Done(
                    Outcome::Internal(respond(envelope, Err(Failure::InvalidParams))),
                ),
            },
            Method::SignTypedData => match decode_typed(&params) {
                None => Step::Done(
                    Outcome::Internal(respond(envelope, Err(Failure::InvalidParams))),
                ),
                Some((account, typed_data)) => {
                    if typed_data.chain_id.is_none() {
                        return Step::Wait(Pending::TypedData { envelope, account, typed_data });
                    }
                    match self.remote.chain_id() {
                        Ok(node) => match typed_data.verify(node) {
                            Ok(_) => Step::Wait(
                                Pending::TypedData { envelope, account, typed_data },
                            ),
                            Err(failure) => Step::Done(
                                Outcome::Internal(respond(envelope, Err(failure))),
                            ),
                        },
                        Err(request) => {
                            let mut requests: Vec<Request> = Vec::new();
                            requests.push(request);
                            Step::Wait(
                                Pending::TypedDataChain { envelope, account, typed_data, requests },
                            )
                        },
                    }
                },
            },
            _ => match decode_transaction(&params) {
                None => Step::Done(
                    Outcome::Internal(respond(envelope, Err(Failure::InvalidParams))),
                ),
                Some(transaction) => match transaction.fill(&mut self.remote) {
                    Err(failure) => Step::Done(Outcome::Internal(respond(envelope, Err(failure)))),
                    Ok((filling, batch)) => {
                        let send = method == Method::SendTransaction;
                        let requests = batch.execute();
                        Step::Wait(Pending::Filling { envelope, send, filling, requests })
                    },
                },
            },
        }
    }

    /// Takes a request on with what came of what it waited for. A signature
    /// ends it with the signature as its result, and a signed transaction
    /// with its encoding, or with the call that sends it. The node's answers
    /// fill the transaction, which then waits for the signer, or tell the
    /// chain, against which the typed data is held. Where the signer did not
    /// sign, the node did not answer, or what came is not what was waited
    /// for, the request ends with an error.
    pub fn resume(&mut self, pending: Pending, event: Event) -> (step: Step)
        ensures
            step.id() == pending.id(),
            final(self).accounts == old(self).accounts,
            final(self).remote.client == old(self).remote.client,
            final(self).remote.ids == old(self).remote.ids,
            old(self).remote.chain_id_cache.0 is Some ==> final(self).remote.chain_id_cache == old(
                self,
            ).remote.chain_id_cache,
            match (pending, event) {
                (Pending::Message { .. }, Event::Signature(Ok(signature))) => step.answered(
                    bytes_json(signature.wire()),
                ),
                (Pending::Message { .. }, Event::Signature(Err(e))) => step.failed(e.failure_spec()),
                (Pending::TypedData { .. }, Event::Signature(Ok(signature))) => step.answered(
                    bytes_json(signature.wire()),
                ),
                (Pending::TypedData { .. }, Event::Signature(Err(e))) => step.failed(
                    e.failure_spec(),
                ),
                (Pending::Transaction { send, envelope, .. }, Event::Signed(Ok(raw))) => if send {
                    step matches Step::Done(Outcome::Remote(forward)) && forward@ == raw_call(
                        raw@,
                        envelope.id@,
                    )
                } else {
                    step.answered(bytes_json(raw@))
                },
                (Pending::Transaction { .. }, Event::Signed(Err(e))) => step.failed(e.failure_spec()),
                (
                    Pending::Filling { send, filling, requests, .. },
                    Event::Answers(Ok(responses)),
                ) => if answers_to(requests_view(requests@), responses_view(responses@)) {
                    match fill_spec(filling.request@, filling.answers(responses_view(responses@))) {
                        Ok(filled) => step matches Step::Wait(
                            Pending::Transaction { send: s, account, transaction, .. },
                        ) && s == send && account@ == filling.request@.from && transaction.args@
                            == filled && transaction.wf(),
                        Err(failure) => step.failed(failure),
                    }
                } else {
                    step.failed(Failure::InternalError)
                },
                (
                    Pending::TypedDataChain { account, typed_data, requests, .. },
                    Event::Answers(Ok(responses)),
                ) => if answers_to(requests_view(requests@), responses_view(responses@)) {
                    match quantity_at(responses_view(responses@), 0) {
                        Some(node) => match verify_spec(
                            number(typed_data.chain_id),
                            match number(old(self).remote.chain_id_cache.0) {
                                Some(known) => known,
                                None => node,
                            },
                        ) {
                            Ok(_) => step matches Step::Wait(
                                Pending::TypedData { account: a, typed_data: t, .. },
                            ) && a == account && t == typed_data,
                            Err(failure) => step.failed(failure),
                        },
                        None => step.failed(Failure::InternalError),
                    }
                } else {
                    step.failed(Failure::InternalError)
                },
                _ => step.failed(Failure::InternalError),
            },
    {
        match (pending, event) {
            (Pending::Message { envelope, .. }, Event::Signature(result)) => {
                Step::Done(Outcome::Internal(Self::signed(envelope, result)))
            },
            (Pending::TypedData { envelope, .. }, Event::Signature(result)) => {
                Step::Done(Outcome::Internal(Self::signed(envelope, result)))
            },
            (Pending::Transaction { envelope, send, .. }, Event::Signed(result)) => {
                match result {
                    Ok(raw) => match Handled::internal(send, &raw) {
                        Handled::Internal(value) => Step::Done(
                            Outcome::Internal(respond(envelope, Ok(value))),
                        ),
                        Handled::Remote(method, params) => Step::Done(
                            Outcome::Remote(
                                Request { jsonrpc: envelope.jsonrpc, method, params, id: envelope.id },
                            ),
                        ),
                    },
                    Err(e) => Step::Done(Outcome::Internal(respond(envelope, Err(e.failure())))),
                }
            },
            (
                Pending::Filling { envelope, send, filling, requests },
                Event::Answers(Ok(responses)),
            ) => {
                if !Client::check_batch(&requests, &responses) {
                    return Step::Done(
                        Outcome::Internal(respond(envelope, Err(Failure::InternalError))),
                    );
                }
                match filling.finish(&mut self.remote, &responses) {
                    Ok((account, transaction)) => Step::Wait(
                        Pending::Transaction { envelope, send, account, transaction },
                    ),
                    Err(failure) => Step::Done(Outcome::Internal(respond(envelope, Err(failure)))),
                }
            },
            (
                Pending::TypedDataChain { envelope, account, typed_data, requests },
                Event::Answers(Ok(responses)),
            ) => {
                if !Client::check_batch(&requests, &responses) {
                    return Step::Done(
                        Outcome::Internal(respond(envelope, Err(Failure::InternalError))),
                    );
                }
                match read_quantity(&responses, 0) {
                    Some(answer) => {
                        self.remote.learn_chain_id(Some(answer));
                        let node = match self.remote.chain_id_cache.get() {
                            Some(node) => node,
                            None => answer,
                        };
                        match typed_data.verify(node) {
                            Ok(_) => Step::Wait(
                                Pending::TypedData { envelope, account, typed_data },
                            ),
                            Err(failure) => Step::Done(
                                Outcome::Internal(respond(envelope, Err(failure))),
                            ),
                        }
                    },
                    None => Step::Done(
                        Outcome::Internal(respond(envelope, Err(Failure::InternalError))),
                    ),
                }
            },
            (pending, _) => {
                let envelope = match pending {
                    Pending::Message { envelope, .. } => envelope,
                    Pending::TypedDataChain { envelope, .. } => envelope,
                    Pending::TypedData { envelope, .. } => envelope,
                    Pending::Filling { envelope, .. } => envelope,
                    Pending::Transaction { envelope, .. } => envelope,
                };
                Step::Done(Outcome::Internal(respond(envelope, Err(Failure::InternalError))))
            },
        }
    }

    /// The answer to a request whose message or typed data went to the
    /// signer: the signature in hex, or the error for why there is none.
    pub fn signed(envelope: Envelope, result: Result<Signature, SignError>) -> (response: Response)
        ensures
            response@.id == envelope.id@,
            match result {
                Ok(signature) => response@.result == Ok::<JsonView, ErrorView>(
                    bytes_json(signature.wire()),
                ),
                Err(e) => response@.result == Err::<JsonView, ErrorView>(
                    failure_error(e.failure_spec()),
                ),
            },
    {
        match result {
            Ok(signature) => {
                let text = Bytes::from_signature(signature).encode_fixed();
                respond(envelope, Ok(Json::String(text)))
            },
            Err(e) => respond(envelope, Err(e.failure())),
        }
    }
}


impl Input {
    /// Whether the input is what a JSON value is read as: a request where it
    /// is one, else a batch where it is an array of requests, else itself.
    pub open spec fn reads(&self, json: JsonView) -> bool {
        match self {
            Input::Request(request) => json_request(json) == Some(request@),
            Input::Batch(requests) => json_request(json) is None && json_requests(json) == Some(
                requests_view(requests@),
            ),
            Input::Unrecognized(value) => json_request(json) is None && json_requests(json)
                is None && value@ == json,
        }
    }

    /// Reads a JSON value as a request, as a batch, or as neither.
    pub fn from_json(json: Json) -> (input: Input)
        ensures
            input.reads(json@),
    {
        match Request::from_json(&json) {
            Some(request) => Input::Request(request),
            None => match requests_from_json(&json) {
                Some(requests) => Input::Batch(requests),
                None => Input::Unrecognized(json),
            },
        }
    }

    /// Reads the body of a message; there is no input where the body is not
    /// JSON.
    pub fn decode(body: &str) -> (r: Option<Input>)
        ensures
            match r {
                Some(input) => json_parse(body@) matches Some(json) && input.reads(json),
                None => json_parse(body@) is None,
            },
    {
        match parse(body) {
            Some(json) => Some(Self::from_json(json)),
            None => None,
        }
    }
}

impl Output {
    /// The JSON value of what is sent back.
    pub open spec fn json(&self) -> JsonView {
        match self {
            Output::Response(response) => response_json(response@),
            Output::Batch(responses) => responses_json(responses_view(responses@)),
        }
    }

    /// The JSON value of what is sent back.
    pub fn to_json(&self) -> (json: Json)
        ensures
            json@ == self.json(),
    {
        match self {
            Output::Response(response) => response.to_json(),
            Output::Batch(responses) => responses_to_json(responses),
        }
    }

    /// The body of what is sent back; none where a number in it is no JSON
    /// number.
    pub fn encode(&self) -> (body: Option<String>)
        ensures
            text_view(body) == json_text(self.json()),
    {
        render(&self.to_json())
    }

    /// One response without an id that tells an error.
    pub fn refusal(error: Error) -> (output: Self)
        ensures
            output matches Output::Response(response) && response@ == (ResponseView {
                result: Err(error@),
                id: IdView::Null,
            }),
    {
        Output::Response(Response { jsonrpc: JsonRpc::V2, result: Err(error), id: Id::Null })
    }
}

/// The requests of a message that are to be answered.
#[derive(Debug)]
pub enum Work {
    One(Request),
    Many(Vec<Request>),
}

/// What a message asks for: the request or the requests of a batch to be
/// answered, or at once what is sent back. A body that is not JSON is a parse
/// error; JSON that is neither a request nor a batch of requests, and an
/// empty batch, are invalid requests.
pub fn handler(input: Option<Input>) -> (r: Result<Work, Output>)
    ensures
        match input {
            None => r matches Err(Output::Response(response)) && response@ == (ResponseView {
                result: Err(
                    ErrorView { code: PARSE_ERROR, message: "Parse error"@, data: None },
                ),
                id: IdView::Null,
            }),
            Some(Input::Request(request)) => r matches Ok(Work::One(one)) && one == request,
            Some(Input::Batch(requests)) => if requests@.len() > 0 {
                r matches Ok(Work::Many(many)) && many == requests
            } else {
                r matches Err(Output::Response(response)) && response@ == (ResponseView {
                    result: Err(
                        ErrorView {
                            code: INVALID_REQUEST,
                            message: "Invalid Request"@,
                            data: None,
                        },
                    ),
                    id: IdView::Null,
                })
            },
            Some(Input::Unrecognized(_)) => r matches Err(Output::Response(response)) && response@
                == (ResponseView {
                result: Err(
                    ErrorView { code: INVALID_REQUEST, message: "Invalid Request"@, data: None },
                ),
                id: IdView::Null,
            }),
        },
{
    match input {
        None => Err(Output::refusal(Error::parse_error())),
        Some(Input::Request(request)) => Ok(Work::One(request)),
        Some(Input::Batch(requests)) => {
            if requests.len() > 0 {
                Ok(Work::Many(requests))
            } else {
                Err(Output::refusal(Error::invalid_request()))
            }
        },
        Some(Input::Unrecognized(_)) => Err(Output::refusal(Error::invalid_request())),
    }
}

/// How many of the first places of a batch wait for the node.
pub open spec fn holes(slots: Seq<Option<Response>>, end: int) -> nat
    decreases end,
{
    if end <= 0 {
        0
    } else {
        holes(slots, end - 1) + if slots[end - 1] is None {
            1nat
        } else {
            0nat
        }
    }
}

/// There are no fewer holes in more places.
pub proof fn lemma_holes_grow(slots: Seq<Option<Response>>, i: int, j: int)
    requires
        0 <= i <= j,
    ensures
        holes(slots, i) <= holes(slots, j),
    decreases j - i,
{
    if i < j {
        lemma_holes_grow(slots, i, j - 1);
    }
}

/// A batch on its way: at each place the response that the proxy has, or a
/// hole for the node's; and the requests that the node is asked, one for each
/// hole and in the order of the holes.
#[derive(Debug)]
pub struct Partition {
    pub slots: Vec<Option<Response>>,
    pub remote: Vec<Request>,
}

impl Partition {
    /// Whether there is a request for each hole and no other.
    pub open spec fn wf(&self) -> bool {
        holes(self.slots@, self.slots@.len() as int) == self.remote@.len()
    }

    /// The id of the request at a place of the batch.
    pub open spec fn id_at(&self, i: int) -> IdView {
        match self.slots@[i] {
            Some(response) => response@.id,
            None => self.remote@[holes(self.slots@, i) as int]@.id,
        }
    }
}

/// The responses that stand for a node that did not answer: an internal
/// error for each request, under its id.
pub fn unanswered(requests: &Vec<Request>) -> (responses: Vec<Response>)
    ensures
        responses@.len() == requests@.len(),
        forall|k: int|
            0 <= k < requests@.len() ==> (#[trigger] responses@[k])@ == (ResponseView {
                result: Err(failure_error(Failure::InternalError)),
                id: requests@[k]@.id,
            }),
{
    let mut out: Vec<Response> = Vec::new();
    let mut k: usize = 0;
    while k < requests.len()
        invariant
            k <= requests.len(),
            out@.len() == k,
            forall|j: int|
                0 <= j < k ==> (#[trigger] out@[j])@ == (ResponseView {
                    result: Err(failure_error(Failure::InternalError)),
                    id: requests@[j]@.id,
                }),
        decreases requests.len() - k,
    {
        let envelope = Envelope { jsonrpc: requests[k].jsonrpc, id: requests[k].id.clone() };
        out.push(respond(envelope, Err(Failure::InternalError)));
        k += 1;
    }
    out
}

impl Node {
    /// Sorts the requests of a batch by how they ended: the responses that
    /// the proxy has stay at their places, and the requests for the node are
    /// put together in their order, to be sent in one batch.
    pub fn handle_requests(outcomes: &Vec<Outcome>) -> (batch: Partition)
        ensures
            batch.wf(),
            batch.slots@.len() == outcomes@.len(),
            forall|i: int| 0 <= i < outcomes@.len() ==> batch.id_at(i) == (#[trigger] outcomes@[i]).id(),
            forall|i: int|
                0 <= i < outcomes@.len() ==> match #[trigger] outcomes@[i] {
                    Outcome::Internal(response) => batch.slots@[i] matches Some(r) && r@
                        == response@,
                    Outcome::Remote(request) => batch.slots@[i] is None && batch.remote@[holes(
                        batch.slots@,
                        i,
                    ) as int]@ == request@,
                },
    {
        let mut slots: Vec<Option<Response>> = Vec::new();
        let mut remote: Vec<Request> = Vec::new();
        let mut i: usize = 0;
        while i < outcomes.len()
            invariant
                i <= outcomes.len(),
                slots@.len() == i,
                holes(slots@, i as int) == remote@.len(),
                forall|k: int|
                    0 <= k < i ==> match #[trigger] outcomes@[k] {
                        Outcome::Internal(response) => slots@[k] matches Some(r) && r@
                            == response@,
                        Outcome::Remote(request) => slots@[k] is None && holes(slots@, k)
                            < remote@.len() && remote@[holes(slots@, k) as int]@ == request@,
                    },
            decreases outcomes.len() - i,
        {
            let ghost before = slots@;
            let ghost asked = remote@;
            match &outcomes[i] {
                Outcome::Internal(response) => {
                    slots.push(Some(response.clone()));
                },
                Outcome::Remote(request) => {
                    slots.push(None);
                    remote.push(request.clone());
                },
            }
            proof {
                assert forall|k: int| 0 <= k <= i implies holes(slots@, k) == holes(before, k) by {
                    lemma_holes_same(before, slots@, k);
                }
                assert forall|k: int| 0 <= k < i implies match #[trigger] outcomes@[k] {
                    Outcome::Internal(response) => slots@[k] matches Some(r) && r@ == response@,
                    Outcome::Remote(request) => slots@[k] is None && holes(slots@, k)
                        < remote@.len() && remote@[holes(slots@, k) as int]@ == request@,
                } by {
                    assert(slots@[k] == before[k]);
                    lemma_holes_grow(before, k + 1, i as int);
                    if outcomes@[k] is Remote {
                        assert(remote@[holes(slots@, k) as int] == asked[holes(before, k) as int]);
                    }
                }
            }
            i += 1;
        }
        Partition { slots, remote }
    }
}

/// The holes of the first places are those of a longer list that begins the
/// same.
pub proof fn lemma_holes_same(a: Seq<Option<Response>>, b: Seq<Option<Response>>, end: int)
    requires
        0 <= end <= a.len() <= b.len(),
        forall|k: int| 0 <= k < a.len() ==> a[k] == b[k],
    ensures
        holes(a, end) == holes(b, end),
    decreases end,
{
    if end > 0 {
        lemma_holes_same(a, b, end - 1);
    }
}

/// Whether the response at a place of a batch is the one that the proxy had
/// for it, or else the node's response for its hole.
pub open spec fn placed(
    slots: Seq<Option<Response>>,
    stream: Seq<Response>,
    out: Seq<Response>,
    k: int,
) -> bool {
    match slots[k] {
        Some(response) => out[k]@ == response@,
        None => holes(slots, k) < stream.len() && out[k]@ == stream[holes(slots, k) as int]@,
    }
}

impl Partition {
    /// Puts the batch together once the node has answered. The node's
    /// responses fill the holes in their order, where they are those of the
    /// requests, one for each and in their order; where they are not, and
    /// where the node did not answer, each hole is filled with an internal
    /// error. There is one response for each request of the batch, at its
    /// place and under its id.
    pub fn finish(self, answer: Result<Vec<Response>, TransportError>) -> (responses: Vec<Response>)
        requires
            self.wf(),
        ensures
            responses@.len() == self.slots@.len(),
            forall|i: int| 0 <= i < self.slots@.len() ==> (#[trigger] responses@[i])@.id == self.id_at(i),
            forall|i: int|
                0 <= i < self.slots@.len() ==> match self.slots@[i] {
                    Some(response) => (#[trigger] responses@[i])@ == response@,
                    None => match answer {
                        Ok(answers) => if answers_to(
                            requests_view(self.remote@),
                            responses_view(answers@),
                        ) {
                            responses@[i]@ == answers@[holes(self.slots@, i) as int]@
                        } else {
                            responses@[i]@.result == Err::<JsonView, ErrorView>(
                                failure_error(Failure::InternalError),
                            )
                        },
                        Err(_) => responses@[i]@.result == Err::<JsonView, ErrorView>(
                            failure_error(Failure::InternalError),
                        ),
                    },
                },
    {
        let ghost good = answer is Ok && answers_to(
            requests_view(self.remote@),
            responses_view(answer->Ok_0@),
        );
        let stream = match answer {
            Ok(answers) => {
                if Client::check_batch(&self.remote, &answers) {
                    answers
                } else {
                    unanswered(&self.remote)
                }
            },
            Err(_) => unanswered(&self.remote),
        };
        assert(stream@.len() == self.remote@.len());
        assert forall|k: int| 0 <= k < stream@.len() implies (#[trigger] stream@[k])@.id
            == self.remote@[k]@.id by {
            if good {
                assert(responses_view(stream@)[k].id == requests_view(self.remote@)[k].id);
            }
        }
        let total = stream.len();
        let mut out: Vec<Response> = Vec::new();
        let mut i: usize = 0;
        let mut next: usize = 0;
        while i < self.slots.len()
            invariant
                i <= self.slots.len(),
                out@.len() == i,
                next == holes(self.slots@, i as int),
                self.wf(),
                stream@.len() == self.remote@.len(),
                stream@.len() == total,
                forall|k: int| 0 <= k < i ==> #[trigger] placed(self.slots@, stream@, out@, k),
            decreases self.slots.len() - i,
        {
            proof {
                lemma_holes_grow(self.slots@, i + 1, self.slots@.len() as int);
                assert(holes(self.slots@, i + 1) == holes(self.slots@, i as int) + (if self.slots@[i as int]
                    is None {
                    1nat
                } else {
                    0nat
                }));
            }
            let ghost done = out@;
            match &self.slots[i] {
                Some(response) => {
                    out.push(response.clone());
                },
                None => {
                    assert(self.slots@[i as int] is None);
                    assert(holes(self.slots@, i + 1) == next + 1);
                    assert(holes(self.slots@, i + 1) <= holes(self.slots@, self.slots@.len() as int));
                    assert(next < stream@.len());
                    out.push(stream[next].clone());
                    next += 1;
                },
            }
            proof {
                assert forall|k: int| 0 <= k < i implies #[trigger] placed(
                    self.slots@,
                    stream@,
                    out@,
                    k,
                ) by {
                    assert(placed(self.slots@, stream@, done, k));
                    assert(out@[k] == done[k]);
                }
                assert(placed(self.slots@, stream@, out@, i as int));
            }
            i += 1;
        }
        proof {
            assert forall|k: int| 0 <= k < self.slots@.len() implies (#[trigger] out@[k])@.id
                == self.id_at(k) by {
                assert(placed(self.slots@, stream@, out@, k));
            }
            assert forall|k: int| 0 <= k < self.slots@.len() implies match self.slots@[k] {
                Some(response) => (#[trigger] out@[k])@ == response@,
                None => if good {
                    out@[k]@ == stream@[holes(self.slots@, k) as int]@
                } else {
                    out@[k]@.result == Err::<JsonView, ErrorView>(
                        failure_error(Failure::InternalError),
                    )
                },
            } by {
                assert(placed(self.slots@, stream@, out@, k));
            }
        }
        out
    }
}

} // verus!

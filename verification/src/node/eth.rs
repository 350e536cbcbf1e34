//! Calls to the node: how each is made, how several travel in one batch, and
//! what is read from the answers.

use crate::account::Address;
use crate::json::items_view;
use crate::json::lemma_array_view;
use crate::json::text_of_u64;
use crate::json::Json;
use crate::json::JsonView;
use crate::json::Number;
use crate::jsonrpc::responses_view;
use crate::jsonrpc::Client;
use crate::jsonrpc::Id;
use crate::jsonrpc::IdView;
use crate::jsonrpc::InvalidScheme;
use crate::jsonrpc::JsonRpc;
use crate::jsonrpc::Params;
use crate::jsonrpc::ParamsView;
use crate::jsonrpc::Request;
use crate::jsonrpc::RequestView;
use crate::jsonrpc::Response;
use crate::jsonrpc::ResponseView;
use crate::node::transaction::address_to_json;
use crate::node::transaction::bytes_json;
use crate::node::transaction::number;
use crate::node::transaction::quantity_from_json;
use crate::node::transaction::quantity_json;
use crate::node::transaction::quantity_of_json;
use crate::node::transaction::quantity_to_json;
use crate::node::transaction::transaction_json;
use crate::node::transaction::TransactionRequest;
use crate::node::types::base_fee_from_json;
use crate::node::types::base_fee_of_json;
use crate::node::types::block_json;
use crate::node::types::Block;
use crate::serialization::Quantity;
use crate::serialization::Str;
use vstd::prelude::*;

verus! {

/// The view of a call: a method, its parameters by position, and a number
/// as its id.
pub open spec fn call_view(method: Seq<char>, params: Seq<JsonView>, id: u64) -> RequestView {
    RequestView {
        method,
        params: Some(ParamsView::Array(params)),
        id: IdView::Number(text_of_u64(id)),
    }
}

/// The id after an id: the next number, and zero after the last.
pub open spec fn next_id(id: u64) -> u64 {
    if id == u64::MAX {
        0
    } else {
        (id + 1) as u64
    }
}

/// A request for a method with the given parameters and id. The parameters
/// of a call to the node are an array: there is no request for anything else.
pub fn prepare(method: &str, params: Json, id: u64) -> (r: Option<Request>)
    ensures
        match r {
            Some(request) => params@ is Array && request@ == call_view(
                method@,
                params@->Array_0,
                id,
            ),
            None => !(params@ is Array),
        },
{
    match params {
        Json::Array(items) => {
            proof {
                lemma_array_view(items);
            }
            Some(
                Request {
                    jsonrpc: JsonRpc::V2,
                    method: method.to_owned(),
                    params: Some(Params::Array(items)),
                    id: Id::Number(Number::from_u64(id)),
                },
            )
        },
        _ => None,
    }
}

/// The chain of the node, once it is known. It is set once and stays.
#[derive(Clone, Copy, Debug)]
pub struct ChainIdCache(pub Option<Quantity>);

impl ChainIdCache {
    /// The chain, where it is known.
    pub fn get(&self) -> (r: Option<Quantity>)
        ensures
            r == self.0,
    {
        self.0
    }

    /// Takes note of the chain, unless it is known already.
    pub fn store(&mut self, chain_id: Quantity)
        ensures
            final(self).0 == (if old(self).0 is Some {
                old(self).0
            } else {
                Some(chain_id)
            }),
    {
        if self.0.is_none() {
            self.0 = Some(chain_id);
        }
    }
}

/// The node: where it is, the ids of the calls made to it, and its chain.
#[derive(Debug)]
pub struct Eth {
    pub client: Client,
    pub chain_id_cache: ChainIdCache,
    pub ids: u64,
}

/// The quantity in the answer at a place of a batch: none where the place is
/// outside the batch, where the answer is an error and where its result is no
/// quantity.
pub open spec fn quantity_at(responses: Seq<ResponseView>, slot: int) -> Option<nat> {
    if 0 <= slot < responses.len() {
        match responses[slot].result {
            Ok(json) => quantity_of_json(json),
            Err(_) => None,
        }
    } else {
        None
    }
}

/// The base fee of the next block in the answer at a place of a batch.
pub open spec fn base_fee_at(responses: Seq<ResponseView>, slot: int) -> Option<nat> {
    if 0 <= slot < responses.len() {
        match responses[slot].result {
            Ok(json) => base_fee_of_json(json),
            Err(_) => None,
        }
    } else {
        None
    }
}

/// Reads the quantity in the answer at a place of a batch.
pub fn read_quantity(responses: &Vec<Response>, slot: usize) -> (r: Option<Quantity>)
    ensures
        number(r) == quantity_at(responses_view(responses@), slot as int),
{
    if slot < responses.len() {
        match &responses[slot].result {
            Ok(json) => quantity_from_json(json),
            Err(_) => None,
        }
    } else {
        None
    }
}

/// Reads the base fee of the next block in the answer at a place of a
/// batch.
pub fn read_base_fee(responses: &Vec<Response>, slot: usize) -> (r: Option<Quantity>)
    ensures
        number(r) == base_fee_at(responses_view(responses@), slot as int),
{
    if slot < responses.len() {
        match &responses[slot].result {
            Ok(json) => base_fee_from_json(json),
            Err(_) => None,
        }
    } else {
        None
    }
}

/// Where the chain comes from: it is known, or it is asked for at a place of
/// a batch.
#[derive(Clone, Copy, Debug, PartialEq, Eq, Structural)]
pub enum Handle {
    Known(Quantity),
    Slot(usize),
}

/// Calls that travel to the node together. Each call has its place, at which
/// its answer is found once the batch has been sent.
#[derive(Debug)]
pub struct Batch {
    pub queue: Vec<Request>,
}

/// Whether a queue is another with one more call at its end.
pub open spec fn queued(
    before: Seq<Request>,
    after: Seq<Request>,
    method: Seq<char>,
    params: Seq<JsonView>,
    id: u64,
) -> bool {
    &&& after.len() == before.len() + 1
    &&& after.drop_last() == before
    &&& after.last()@ == call_view(method, params, id)
}

impl Eth {
    /// The node behind a client. The first call has the id 1, and the chain
    /// is not known yet.
    pub fn new(client: Client) -> (eth: Self)
        ensures
            eth.client == client,
            eth.chain_id_cache.0 is None,
            eth.ids == 1,
    {
        Self { client, chain_id_cache: ChainIdCache(None), ids: 1 }
    }

    /// The node at a URL of `http` or `https`.
    pub fn from_url(url: &str) -> (r: Result<Self, InvalidScheme>)
        ensures
            r is Ok <==> crate::jsonrpc::is_http(crate::jsonrpc::uri_scheme(url@)),
            r matches Ok(eth) ==> eth.client.url_view() == url@ && eth.chain_id_cache.0 is None
                && eth.ids == 1,
    {
        match Client::new(url) {
            Ok(client) => Ok(Self::new(client)),
            Err(e) => Err(e),
        }
    }

    /// An empty batch.
    pub fn batch(&self) -> (batch: Batch)
        ensures
            batch.queue@.len() == 0,
    {
        Batch { queue: Vec::new() }
    }

    /// The id for the next call.
    pub fn take_id(&mut self) -> (id: u64)
        ensures
            id == old(self).ids,
            final(self).ids == next_id(old(self).ids),
            final(self).client == old(self).client,
            final(self).chain_id_cache == old(self).chain_id_cache,
    {
        let id = self.ids;
        self.ids = if id == u64::MAX {
            0
        } else {
            id + 1
        };
        id
    }

    /// A call to the node, with the next id.
    pub fn call(&mut self, method: &str, params: Vec<Json>) -> (request: Request)
        ensures
            request@ == call_view(method@, items_view(params@), old(self).ids),
            final(self).ids == next_id(old(self).ids),
            final(self).client == old(self).client,
            final(self).chain_id_cache == old(self).chain_id_cache,
    {
        let id = self.take_id();
        Request {
            jsonrpc: JsonRpc::V2,
            method: method.to_owned(),
            params: Some(Params::Array(params)),
            id: Id::Number(Number::from_u64(id)),
        }
    }

    /// The chain where it is known, and else the call that asks for it.
    pub fn chain_id(&mut self) -> (r: Result<Quantity, Request>)
        ensures
            match r {
                Ok(chain_id) => old(self).chain_id_cache.0 == Some(chain_id) && *final(self)
                    == *old(self),
                Err(request) => {
                    &&& old(self).chain_id_cache.0 is None
                    &&& request@ == call_view("eth_chainId"@, Seq::empty(), old(self).ids)
                    &&& final(self).ids == next_id(old(self).ids)
                    &&& final(self).client == old(self).client
                    &&& final(self).chain_id_cache == old(self).chain_id_cache
                },
            },
    {
        match self.chain_id_cache.get() {
            Some(chain_id) => Ok(chain_id),
            None => {
                let params: Vec<Json> = Vec::new();
                assert(items_view(params@) =~= Seq::<JsonView>::empty());
                Err(self.call("eth_chainId", params))
            },
        }
    }

    /// Takes note of the chain that the node answered, where it did.
    pub fn learn_chain_id(&mut self, answer: Option<Quantity>)
        ensures
            final(self).chain_id_cache.0 == (if old(self).chain_id_cache.0 is Some {
                old(self).chain_id_cache.0
            } else {
                answer
            }),
            final(self).ids == old(self).ids,
            final(self).client == old(self).client,
    {
        match answer {
            Some(chain_id) => {
                self.chain_id_cache.store(chain_id);
            },
            None => {},
        }
    }
}

impl Batch {
    /// Adds a call and gives its place.
    pub fn call(&mut self, eth: &mut Eth, method: &str, params: Vec<Json>) -> (slot: usize)
        ensures
            slot == old(self).queue@.len(),
            queued(
                old(self).queue@,
                final(self).queue@,
                method@,
                items_view(params@),
                old(eth).ids,
            ),
            final(eth).ids == next_id(old(eth).ids),
            final(eth).client == old(eth).client,
            final(eth).chain_id_cache == old(eth).chain_id_cache,
    {
        let slot = self.queue.len();
        let request = eth.call(method, params);
        self.queue.push(request);
        assert(self.queue@.drop_last() =~= old(self).queue@);
        slot
    }

    /// The chain: known, or asked for.
    pub fn chain_id(&mut self, eth: &mut Eth) -> (handle: Handle)
        ensures
            match handle {
                Handle::Known(chain_id) => {
                    &&& old(eth).chain_id_cache.0 == Some(chain_id)
                    &&& *final(eth) == *old(eth)
                    &&& final(self).queue@ == old(self).queue@
                },
                Handle::Slot(slot) => {
                    &&& old(eth).chain_id_cache.0 is None
                    &&& slot == old(self).queue@.len()
                    &&& queued(
                        old(self).queue@,
                        final(self).queue@,
                        "eth_chainId"@,
                        Seq::empty(),
                        old(eth).ids,
                    )
                    &&& final(eth).ids == next_id(old(eth).ids)
                    &&& final(eth).client == old(eth).client
                    &&& final(eth).chain_id_cache == old(eth).chain_id_cache
                },
            },
    {
        match eth.chain_id_cache.get() {
            Some(chain_id) => Handle::Known(chain_id),
            None => {
                let params: Vec<Json> = Vec::new();
                assert(items_view(params@) =~= Seq::<JsonView>::empty());
                Handle::Slot(self.call(eth, "eth_chainId", params))
            },
        }
    }

    /// The number of transactions that an account has sent, which is its
    /// next nonce.
    pub fn get_transaction_count(&mut self, eth: &mut Eth, account: Address, block: Block) -> (slot:
        usize)
        ensures
            slot == old(self).queue@.len(),
            queued(
                old(self).queue@,
                final(self).queue@,
                "eth_getTransactionCount"@,
                seq![bytes_json(account@), block_json(block)],
                old(eth).ids,
            ),
            final(eth).ids == next_id(old(eth).ids),
            final(eth).client == old(eth).client,
            final(eth).chain_id_cache == old(eth).chain_id_cache,
    {
        let mut params: Vec<Json> = Vec::new();
        params.push(address_to_json(Str(account)));
        params.push(block.to_json());
        assert(items_view(params@) =~= seq![bytes_json(account@), block_json(block)]);
        self.call(eth, "eth_getTransactionCount", params)
    }

    /// An estimate of the gas that a transaction takes.
    pub fn estimate_gas(&mut self, eth: &mut Eth, transaction: &TransactionRequest, block: Block) -> (slot:
        usize)
        ensures
            slot == old(self).queue@.len(),
            queued(
                old(self).queue@,
                final(self).queue@,
                "eth_estimateGas"@,
                seq![transaction_json(transaction@), block_json(block)],
                old(eth).ids,
            ),
            final(eth).ids == next_id(old(eth).ids),
            final(eth).client == old(eth).client,
            final(eth).chain_id_cache == old(eth).chain_id_cache,
    {
        let mut params: Vec<Json> = Vec::new();
        params.push(transaction.to_json());
        params.push(block.to_json());
        assert(items_view(params@) =~= seq![transaction_json(transaction@), block_json(block)]);
        self.call(eth, "eth_estimateGas", params)
    }

    /// A priority fee that is likely to do.
    pub fn max_priority_fee_per_gas(&mut self, eth: &mut Eth) -> (slot: usize)
        ensures
            slot == old(self).queue@.len(),
            queued(
                old(self).queue@,
                final(self).queue@,
                "eth_maxPriorityFeePerGas"@,
                Seq::empty(),
                old(eth).ids,
            ),
            final(eth).ids == next_id(old(eth).ids),
            final(eth).client == old(eth).client,
            final(eth).chain_id_cache == old(eth).chain_id_cache,
    {
        let params: Vec<Json> = Vec::new();
        assert(items_view(params@) =~= Seq::<JsonView>::empty());
        self.call(eth, "eth_maxPriorityFeePerGas", params)
    }

    /// The base fee of the next block: the fee history of the latest block,
    /// without priority fees.
    pub fn base_fee(&mut self, eth: &mut Eth) -> (slot: usize)
        ensures
            slot == old(self).queue@.len(),
            queued(
                old(self).queue@,
                final(self).queue@,
                "eth_feeHistory"@,
                seq![
                    quantity_json(1),
                    block_json(Block::Latest),
                    JsonView::Array(Seq::empty()),
                ],
                old(eth).ids,
            ),
            final(eth).ids == next_id(old(eth).ids),
            final(eth).client == old(eth).client,
            final(eth).chain_id_cache == old(eth).chain_id_cache,
    {
        let mut params: Vec<Json> = Vec::new();
        params.push(quantity_to_json(Quantity::new(1)));
        params.push(Block::Latest.to_json());
        let none: Vec<Json> = Vec::new();
        proof {
            lemma_array_view(none);
            assert(items_view(none@) =~= Seq::<JsonView>::empty());
        }
        params.push(Json::Array(none));
        assert(items_view(params@) =~= seq![
            quantity_json(1),
            block_json(Block::Latest),
            JsonView::Array(Seq::empty()),
        ]);
        self.call(eth, "eth_feeHistory", params)
    }

    /// The gas price.
    pub fn gas_price(&mut self, eth: &mut Eth) -> (slot: usize)
        ensures
            slot == old(self).queue@.len(),
            queued(old(self).queue@, final(self).queue@, "eth_gasPrice"@, Seq::empty(), old(eth).ids),
            final(eth).ids == next_id(old(eth).ids),
            final(eth).client == old(eth).client,
            final(eth).chain_id_cache == old(eth).chain_id_cache,
    {
        let params: Vec<Json> = Vec::new();
        assert(items_view(params@) =~= Seq::<JsonView>::empty());
        self.call(eth, "eth_gasPrice", params)
    }

    /// The calls of the batch, to be sent together.
    pub fn execute(self) -> (requests: Vec<Request>)
        ensures
            requests == self.queue,
    {
        self.queue
    }
}

} // verus!

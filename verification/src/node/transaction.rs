//! Transaction requests, and how a partial one becomes a transaction that can
//! be signed.

use crate::account::Address;
use crate::json::find;
use crate::json::items_view;
use crate::json::keys_within;
use crate::json::lemma_array_view;
use crate::json::lemma_object_view;
use crate::json::lookup;
use crate::json::members_view;
use crate::json::Json;
use crate::json::JsonView;
use crate::jsonrpc::responses_view;
use crate::jsonrpc::Request;
use crate::jsonrpc::Response;
use crate::jsonrpc::ResponseView;
use crate::node::eth::base_fee_at;
use crate::node::eth::call_view;
use crate::node::eth::next_id;
use crate::node::eth::quantity_at;
use crate::node::eth::queued;
use crate::node::eth::read_base_fee;
use crate::node::eth::read_quantity;
use crate::node::eth::Batch;
use crate::node::eth::Eth;
use crate::node::eth::Handle;
use crate::node::types::block_json;
use crate::node::types::Block;
use crate::serialization::bytes_decode_spec;
use crate::serialization::bytes_encode_spec;
use crate::serialization::fixed_decode_spec;
use crate::serialization::quantity_decode_spec;
use crate::serialization::quantity_encode_spec;
use crate::serialization::limit;
use crate::serialization::Bytes;
use crate::serialization::Quantity;
use crate::serialization::Str;
use vstd::prelude::*;

verus! {

/// Why the proxy does not go on with a request.
#[derive(Clone, Copy, Debug, PartialEq, Eq, Structural)]
pub enum Failure {
    /// The client asked for what cannot be: the error is its own.
    InvalidParams,
    /// Anything else, the node's failures among them.
    InternalError,
}

/// The addresses and storage slots that a transaction says it will touch.
pub type AccessList = Vec<(Str<Address>, Vec<Bytes<[u8; 32]>>)>;

/// What a client sends to have a transaction signed or sent: a transaction
/// with the account that signs it, of which much may be left out.
#[derive(Debug)]
pub struct TransactionRequest {
    /// The account that signs.
    pub from: Str<Address>,
    /// The account called; none where the transaction creates a contract.
    pub to: Option<Str<Address>>,
    /// The gas limit.
    pub gas: Option<Quantity>,
    /// The gas price of a transaction without a fee market.
    pub gas_price: Option<Quantity>,
    /// The most that is paid for a unit of gas.
    pub max_fee_per_gas: Option<Quantity>,
    /// The most that is paid to the block's producer for a unit of gas.
    pub max_priority_fee_per_gas: Option<Quantity>,
    /// The amount sent.
    pub value: Quantity,
    /// The call data.
    pub data: Bytes<Vec<u8>>,
    /// The nonce.
    pub nonce: Option<Quantity>,
    /// The access list.
    pub access_list: Option<AccessList>,
    /// The chain that the transaction is for.
    pub chain_id: Option<Quantity>,
    /// The type that the client named; it decides nothing here.
    pub transaction_type: Option<Quantity>,
}

/// The value of an access list: addresses and slots as bytes.
pub type AccessListView = Seq<(Seq<u8>, Seq<Seq<u8>>)>;

/// The value of a [`TransactionRequest`].
pub struct TransactionRequestView {
    pub from: Seq<u8>,
    pub to: Option<Seq<u8>>,
    pub gas: Option<nat>,
    pub gas_price: Option<nat>,
    pub max_fee_per_gas: Option<nat>,
    pub max_priority_fee_per_gas: Option<nat>,
    pub value: nat,
    pub data: Seq<u8>,
    pub nonce: Option<nat>,
    pub access_list: Option<AccessListView>,
    pub chain_id: Option<nat>,
    pub transaction_type: Option<nat>,
}

/// The number of a quantity that may be left out.
pub open spec fn number(q: Option<Quantity>) -> Option<nat> {
    match q {
        Some(q) => Some(q@),
        None => None,
    }
}

/// The bytes of an address that may be left out.
pub open spec fn account(a: Option<Str<Address>>) -> Option<Seq<u8>> {
    match a {
        Some(a) => Some(a.0@),
        None => None,
    }
}

/// The bytes of the slots of an access list entry.
pub open spec fn slots_view(slots: Seq<Bytes<[u8; 32]>>) -> Seq<Seq<u8>> {
    Seq::new(slots.len(), |j: int| slots[j].0@)
}

/// The value of an access list.
pub open spec fn access_list_view(list: Seq<(Str<Address>, Vec<Bytes<[u8; 32]>>)>) -> AccessListView {
    Seq::new(list.len(), |i: int| (list[i].0.0@, slots_view(list[i].1@)))
}

/// The value of an access list that may be left out.
pub open spec fn listed(list: Option<AccessList>) -> Option<AccessListView> {
    match list {
        Some(l) => Some(access_list_view(l@)),
        None => None,
    }
}

impl View for TransactionRequest {
    type V = TransactionRequestView;

    open spec fn view(&self) -> TransactionRequestView {
        TransactionRequestView {
            from: self.from.0@,
            to: account(self.to),
            gas: number(self.gas),
            gas_price: number(self.gas_price),
            max_fee_per_gas: number(self.max_fee_per_gas),
            max_priority_fee_per_gas: number(self.max_priority_fee_per_gas),
            value: self.value@,
            data: self.data.0@,
            nonce: number(self.nonce),
            access_list: listed(self.access_list),
            chain_id: number(self.chain_id),
            transaction_type: number(self.transaction_type),
        }
    }
}

/// What has to be asked of the node before a request can be filled. The
/// chain and the account's transaction count are always asked for.
#[derive(Clone, Copy, Debug, PartialEq, Eq, Structural)]
pub struct Plan {
    /// An estimate of the gas that the transaction takes.
    pub estimate_gas: bool,
    /// The gas price.
    pub gas_price: bool,
    /// The base fee of the next block.
    pub base_fee: bool,
    /// A priority fee.
    pub max_priority_fee: bool,
}

/// What the node answered; `None` where it was not asked or did not answer.
#[derive(Clone, Copy, Debug)]
pub struct Answers {
    pub chain_id: Option<Quantity>,
    pub nonce: Option<Quantity>,
    pub gas: Option<Quantity>,
    pub gas_price: Option<Quantity>,
    pub base_fee: Option<Quantity>,
    pub max_priority_fee: Option<Quantity>,
}

/// The value of [`Answers`].
pub struct AnswersView {
    pub chain_id: Option<nat>,
    pub nonce: Option<nat>,
    pub gas: Option<nat>,
    pub gas_price: Option<nat>,
    pub base_fee: Option<nat>,
    pub max_priority_fee: Option<nat>,
}

impl View for Answers {
    type V = AnswersView;

    open spec fn view(&self) -> AnswersView {
        AnswersView {
            chain_id: number(self.chain_id),
            nonce: number(self.nonce),
            gas: number(self.gas),
            gas_price: number(self.gas_price),
            base_fee: number(self.base_fee),
            max_priority_fee: number(self.max_priority_fee),
        }
    }
}

/// What is asked of the node for a request: nothing on fees where the gas
/// price is given; the gas price, the base fee and a priority fee where no
/// fee is given; the base fee where only the priority fee is given; a
/// priority fee where only the fee cap is given. A request with a gas price
/// and a fee of the fee market is refused.
pub open spec fn plan_spec(r: TransactionRequestView) -> Result<Plan, Failure> {
    if r.gas_price is Some && (r.max_fee_per_gas is Some || r.max_priority_fee_per_gas is Some) {
        Err(Failure::InvalidParams)
    } else {
        Ok(
            Plan {
                estimate_gas: r.gas is None,
                gas_price: r.gas_price is None && r.max_fee_per_gas is None
                    && r.max_priority_fee_per_gas is None,
                base_fee: r.gas_price is None && r.max_fee_per_gas is None,
                max_priority_fee: r.gas_price is None && r.max_priority_fee_per_gas is None,
            },
        )
    }
}

/// What the node says of something that the client may have said too: the
/// node's answer, which the client's must equal.
pub open spec fn agree_spec(given: Option<nat>, answer: Option<nat>) -> Result<nat, Failure> {
    match answer {
        None => Err(Failure::InternalError),
        Some(n) => match given {
            Some(g) => if g == n {
                Ok(n)
            } else {
                Err(Failure::InvalidParams)
            },
            None => Ok(n),
        },
    }
}

/// An answer that is needed.
pub open spec fn expect_spec(answer: Option<nat>) -> Result<nat, Failure> {
    match answer {
        Some(n) => Ok(n),
        None => Err(Failure::InternalError),
    }
}

/// The fee cap for a base fee and a priority fee: twice the base fee and the
/// priority fee, which must fit in 256 bits.
pub open spec fn fee_cap_spec(base_fee: nat, priority_fee: nat) -> Result<nat, Failure> {
    if 2 * base_fee + priority_fee < limit() {
        Ok(2 * base_fee + priority_fee)
    } else {
        Err(Failure::InternalError)
    }
}

/// The three fees of a request: gas price, fee cap, priority fee.
pub struct Fees {
    pub gas_price: Option<nat>,
    pub max_fee_per_gas: Option<nat>,
    pub max_priority_fee_per_gas: Option<nat>,
}

/// The fees of a request that was not refused, after the node's answers.
/// Where all three were asked for, the fee market is taken if the node
/// answered on it, and else the gas price. Otherwise what was left out is
/// filled from the answers.
pub open spec fn fees_spec(r: TransactionRequestView, plan: Plan, a: AnswersView) -> Result<
    Fees,
    Failure,
> {
    if plan.gas_price && plan.base_fee && plan.max_priority_fee {
        match (a.base_fee, a.max_priority_fee) {
            (Some(base_fee), Some(priority_fee)) => match fee_cap_spec(base_fee, priority_fee) {
                Ok(cap) => Ok(
                    Fees {
                        gas_price: None,
                        max_fee_per_gas: Some(cap),
                        max_priority_fee_per_gas: Some(priority_fee),
                    },
                ),
                Err(e) => Err(e),
            },
            _ => match expect_spec(a.gas_price) {
                Ok(price) => Ok(
                    Fees {
                        gas_price: Some(price),
                        max_fee_per_gas: None,
                        max_priority_fee_per_gas: None,
                    },
                ),
                Err(e) => Err(e),
            },
        }
    } else {
        let priority: Result<Option<nat>, Failure> = if plan.max_priority_fee {
            match expect_spec(a.max_priority_fee) {
                Ok(p) => Ok(Some(p)),
                Err(e) => Err(e),
            }
        } else {
            Ok(r.max_priority_fee_per_gas)
        };
        match priority {
            Err(e) => Err(e),
            Ok(priority) => if plan.base_fee {
                match expect_spec(a.base_fee) {
                    Err(e) => Err(e),
                    Ok(base_fee) => match fee_cap_spec(base_fee, priority.unwrap()) {
                        Ok(cap) => Ok(
                            Fees {
                                gas_price: r.gas_price,
                                max_fee_per_gas: Some(cap),
                                max_priority_fee_per_gas: priority,
                            },
                        ),
                        Err(e) => Err(e),
                    },
                }
            } else {
                Ok(
                    Fees {
                        gas_price: r.gas_price,
                        max_fee_per_gas: r.max_fee_per_gas,
                        max_priority_fee_per_gas: priority,
                    },
                )
            },
        }
    }
}

/// The request with all that was left out filled in from the node's answers,
/// or why it is not filled: a refused request first, then the chain, the
/// nonce, the gas and the fees, each as far as the one before went well.
pub open spec fn fill_spec(r: TransactionRequestView, a: AnswersView) -> Result<
    TransactionRequestView,
    Failure,
> {
    match plan_spec(r) {
        Err(e) => Err(e),
        Ok(plan) => match agree_spec(r.chain_id, a.chain_id) {
            Err(e) => Err(e),
            Ok(chain_id) => match agree_spec(r.nonce, a.nonce) {
                Err(e) => Err(e),
                Ok(nonce) => {
                    let gas = if plan.estimate_gas {
                        expect_spec(a.gas)
                    } else {
                        Ok(r.gas.unwrap())
                    };
                    match gas {
                        Err(e) => Err(e),
                        Ok(gas) => match fees_spec(r, plan, a) {
                            Err(e) => Err(e),
                            Ok(fees) => Ok(
                                TransactionRequestView {
                                    gas: Some(gas),
                                    gas_price: fees.gas_price,
                                    max_fee_per_gas: fees.max_fee_per_gas,
                                    max_priority_fee_per_gas: fees.max_priority_fee_per_gas,
                                    nonce: Some(nonce),
                                    chain_id: Some(chain_id),
                                    ..r
                                },
                            ),
                        },
                    }
                },
            },
        },
    }
}

/// Whether a request has all that a transaction of its kind needs: chain,
/// nonce and gas, and the priority fee beside a fee cap, or else the gas
/// price.
pub open spec fn filled(r: TransactionRequestView) -> bool {
    &&& r.chain_id is Some
    &&& r.nonce is Some
    &&& r.gas is Some
    &&& r.max_fee_per_gas is Some ==> r.max_priority_fee_per_gas is Some
    &&& r.max_fee_per_gas is None ==> r.gas_price is Some
}

/// A transaction without a fee market or an access list.
#[derive(Debug)]
pub struct LegacyTransaction {
    pub nonce: Quantity,
    pub gas_price: Quantity,
    pub gas_limit: Quantity,
    pub to: Option<Address>,
    pub value: Quantity,
    pub data: Vec<u8>,
    pub chain_id: Option<Quantity>,
}

/// A transaction with an access list.
#[derive(Debug)]
pub struct Eip2930Transaction {
    pub chain_id: Quantity,
    pub nonce: Quantity,
    pub gas_price: Quantity,
    pub gas_limit: Quantity,
    pub to: Option<Address>,
    pub value: Quantity,
    pub data: Vec<u8>,
    pub access_list: Vec<(Address, Vec<[u8; 32]>)>,
}

/// A transaction of the fee market.
#[derive(Debug)]
pub struct Eip1559Transaction {
    pub chain_id: Quantity,
    pub nonce: Quantity,
    pub max_priority_fee_per_gas: Quantity,
    pub max_fee_per_gas: Quantity,
    pub gas_limit: Quantity,
    pub to: Option<Address>,
    pub value: Quantity,
    pub data: Vec<u8>,
    pub access_list: Vec<(Address, Vec<[u8; 32]>)>,
}

/// A transaction of one of the three kinds.
#[derive(Debug)]
pub enum Inner {
    Legacy(LegacyTransaction),
    Eip2930(Eip2930Transaction),
    Eip1559(Eip1559Transaction),
}

/// The value of an [`Inner`].
#[allow(inconsistent_fields)]
pub enum InnerView {
    Legacy {
        nonce: nat,
        gas_price: nat,
        gas_limit: nat,
        to: Option<Seq<u8>>,
        value: nat,
        data: Seq<u8>,
        chain_id: Option<nat>,
    },
    Eip2930 {
        chain_id: nat,
        nonce: nat,
        gas_price: nat,
        gas_limit: nat,
        to: Option<Seq<u8>>,
        value: nat,
        data: Seq<u8>,
        access_list: AccessListView,
    },
    Eip1559 {
        chain_id: nat,
        nonce: nat,
        max_priority_fee_per_gas: nat,
        max_fee_per_gas: nat,
        gas_limit: nat,
        to: Option<Seq<u8>>,
        value: nat,
        data: Seq<u8>,
        access_list: AccessListView,
    },
}

/// The bytes of an address that may be left out.
pub open spec fn target(a: Option<Address>) -> Option<Seq<u8>> {
    match a {
        Some(a) => Some(a@),
        None => None,
    }
}

/// The value of an access list of plain addresses and slots.
pub open spec fn plain_list_view(list: Seq<(Address, Vec<[u8; 32]>)>) -> AccessListView {
    Seq::new(list.len(), |i: int| (list[i].0@, Seq::new(list[i].1@.len(), |j: int| list[i].1@[j]@)))
}

impl View for Inner {
    type V = InnerView;

    open spec fn view(&self) -> InnerView {
        match self {
            Inner::Legacy(t) => InnerView::Legacy {
                nonce: t.nonce@,
                gas_price: t.gas_price@,
                gas_limit: t.gas_limit@,
                to: target(t.to),
                value: t.value@,
                data: t.data@,
                chain_id: number(t.chain_id),
            },
            Inner::Eip2930(t) => InnerView::Eip2930 {
                chain_id: t.chain_id@,
                nonce: t.nonce@,
                gas_price: t.gas_price@,
                gas_limit: t.gas_limit@,
                to: target(t.to),
                value: t.value@,
                data: t.data@,
                access_list: plain_list_view(t.access_list@),
            },
            Inner::Eip1559(t) => InnerView::Eip1559 {
                chain_id: t.chain_id@,
                nonce: t.nonce@,
                max_priority_fee_per_gas: t.max_priority_fee_per_gas@,
                max_fee_per_gas: t.max_fee_per_gas@,
                gas_limit: t.gas_limit@,
                to: target(t.to),
                value: t.value@,
                data: t.data@,
                access_list: plain_list_view(t.access_list@),
            },
        }
    }
}

/// The access list of a request, empty where it has none.
pub open spec fn access_list_or_empty(r: TransactionRequestView) -> AccessListView {
    match r.access_list {
        Some(list) => list,
        None => Seq::empty(),
    }
}

/// The transaction of a filled request: of the fee market where it has a fee
/// cap, else with an access list where it has one, else without either and
/// with the chain in it.
pub open spec fn inner_spec(r: TransactionRequestView) -> InnerView
    recommends
        filled(r),
{
    if r.max_fee_per_gas is Some {
        InnerView::Eip1559 {
            chain_id: r.chain_id.unwrap(),
            nonce: r.nonce.unwrap(),
            max_priority_fee_per_gas: r.max_priority_fee_per_gas.unwrap(),
            max_fee_per_gas: r.max_fee_per_gas.unwrap(),
            gas_limit: r.gas.unwrap(),
            to: r.to,
            value: r.value,
            data: r.data,
            access_list: access_list_or_empty(r),
        }
    } else if r.access_list is Some {
        InnerView::Eip2930 {
            chain_id: r.chain_id.unwrap(),
            nonce: r.nonce.unwrap(),
            gas_price: r.gas_price.unwrap(),
            gas_limit: r.gas.unwrap(),
            to: r.to,
            value: r.value,
            data: r.data,
            access_list: access_list_or_empty(r),
        }
    } else {
        InnerView::Legacy {
            nonce: r.nonce.unwrap(),
            gas_price: r.gas_price.unwrap(),
            gas_limit: r.gas.unwrap(),
            to: r.to,
            value: r.value,
            data: r.data,
            chain_id: Some(r.chain_id.unwrap()),
        }
    }
}

/// A transaction that can be signed, with the request that it was made of.
#[derive(Debug)]
pub struct Transaction {
    pub args: TransactionRequest,
    pub inner: Inner,
}

impl Transaction {
    /// Whether the request is filled and the transaction is the one of the
    /// request.
    pub open spec fn wf(&self) -> bool {
        &&& filled(self.args@)
        &&& self.inner@ == inner_spec(self.args@)
    }
}

/// Every request that is filled from the node's answers has all that its
/// transaction needs, and the transaction is of exactly one kind, with a
/// value in each of its fields.
pub proof fn filled_is_complete(r: TransactionRequestView, a: AnswersView)
    requires
        fill_spec(r, a) is Ok,
    ensures
        filled(fill_spec(r, a).unwrap()),
        fill_spec(r, a).unwrap().from == r.from,
        fill_spec(r, a).unwrap().to == r.to,
        fill_spec(r, a).unwrap().value == r.value,
        fill_spec(r, a).unwrap().data == r.data,
        fill_spec(r, a).unwrap().access_list == r.access_list,
        inner_spec(fill_spec(r, a).unwrap()) is Eip1559 <==> fill_spec(
            r,
            a,
        ).unwrap().max_fee_per_gas is Some,
        inner_spec(fill_spec(r, a).unwrap()) is Eip2930 <==> fill_spec(
            r,
            a,
        ).unwrap().max_fee_per_gas is None && r.access_list is Some,
        inner_spec(fill_spec(r, a).unwrap()) is Legacy <==> fill_spec(
            r,
            a,
        ).unwrap().max_fee_per_gas is None && r.access_list is None,
{
}

/// A copy of some bytes.
pub fn copy_bytes(bytes: &Vec<u8>) -> (r: Vec<u8>)
    ensures
        r@ == bytes@,
{
    let mut out: Vec<u8> = Vec::new();
    let mut i: usize = 0;
    while i < bytes.len()
        invariant
            i <= bytes.len(),
            out@ == bytes@.subrange(0, i as int),
        decreases bytes.len() - i,
    {
        out.push(bytes[i]);
        assert(out@ =~= bytes@.subrange(0, i + 1));
        i += 1;
    }
    assert(out@ =~= bytes@);
    out
}

/// The slots of an access list entry as plain arrays.
pub fn plain_slots(slots: &Vec<Bytes<[u8; 32]>>) -> (r: Vec<[u8; 32]>)
    ensures
        r@.len() == slots@.len(),
        forall|j: int| 0 <= j < slots@.len() ==> r@[j]@ == (#[trigger] slots@[j]).0@,
{
    let mut out: Vec<[u8; 32]> = Vec::new();
    let mut j: usize = 0;
    while j < slots.len()
        invariant
            j <= slots.len(),
            out@.len() == j,
            forall|k: int| 0 <= k < j ==> out@[k]@ == (#[trigger] slots@[k]).0@,
        decreases slots.len() - j,
    {
        out.push(slots[j].0);
        j += 1;
    }
    out
}

impl TransactionRequest {
    /// What has to be asked of the node before the request can be filled.
    pub fn plan(&self) -> (r: Result<Plan, Failure>)
        ensures
            r == plan_spec(self@),
    {
        let price = self.gas_price.is_some();
        let cap = self.max_fee_per_gas.is_some();
        let priority = self.max_priority_fee_per_gas.is_some();
        if price && (cap || priority) {
            Err(Failure::InvalidParams)
        } else {
            Ok(
                Plan {
                    estimate_gas: self.gas.is_none(),
                    gas_price: !price && !cap && !priority,
                    base_fee: !price && !cap,
                    max_priority_fee: !price && !priority,
                },
            )
        }
    }

    /// The access list as plain addresses and slots, empty where the request
    /// has none.
    pub fn hdwallet_access_list(&self) -> (r: Vec<(Address, Vec<[u8; 32]>)>)
        ensures
            plain_list_view(r@) == access_list_or_empty(self@),
    {
        let mut out: Vec<(Address, Vec<[u8; 32]>)> = Vec::new();
        match &self.access_list {
            None => {
                assert(plain_list_view(out@) =~= access_list_or_empty(self@));
            },
            Some(list) => {
                let mut i: usize = 0;
                while i < list.len()
                    invariant
                        i <= list.len(),
                        out@.len() == i,
                        forall|k: int|
                            0 <= k < i ==> (#[trigger] out@[k]).0@ == list@[k].0.0@
                                && out@[k].1@.len() == list@[k].1@.len(),
                        forall|k: int, j: int|
                            0 <= k < i && 0 <= j < list@[k].1@.len() ==> (#[trigger] out@[k].1@[j])@
                                == list@[k].1@[j].0@,
                    decreases list.len() - i,
                {
                    let slots = plain_slots(&list[i].1);
                    out.push((list[i].0.0, slots));
                    i += 1;
                }
                proof {
                    let left = plain_list_view(out@);
                    let right = access_list_view(list@);
                    assert(left.len() == right.len());
                    assert forall|k: int| 0 <= k < left.len() implies left[k] == right[k] by {
                        assert(out@[k].0@ == list@[k].0.0@);
                        assert(left[k].1.len() == right[k].1.len());
                        assert forall|j: int| 0 <= j < left[k].1.len() implies left[k].1[j]
                            == right[k].1[j] by {
                            assert(out@[k].1@[j]@ == list@[k].1@[j].0@);
                        }
                        assert(left[k].1 =~= right[k].1);
                    }
                    assert(left =~= right);
                }
            },
        }
        out
    }
}

/// The address in an optional wrapper.
pub fn unwrapped(a: Option<Str<Address>>) -> (r: Option<Address>)
    ensures
        target(r) == account(a),
{
    match a {
        Some(a) => Some(a.0),
        None => None,
    }
}

impl Transaction {
    /// The transaction of a filled request: of the fee market where the
    /// request has a fee cap, else with an access list where it has one, else
    /// without either.
    pub fn from_args(args: TransactionRequest) -> (r: Self)
        requires
            filled(args@),
        ensures
            r.args == args,
            r.wf(),
    {
        let data = copy_bytes(&args.data.0);
        let to = unwrapped(args.to);
        let inner = match (&args.max_fee_per_gas, &args.access_list) {
            (Some(cap), _) => Inner::Eip1559(
                Eip1559Transaction {
                    chain_id: args.chain_id.unwrap(),
                    nonce: args.nonce.unwrap(),
                    max_priority_fee_per_gas: args.max_priority_fee_per_gas.unwrap(),
                    max_fee_per_gas: *cap,
                    gas_limit: args.gas.unwrap(),
                    to,
                    value: args.value,
                    data,
                    access_list: args.hdwallet_access_list(),
                },
            ),
            (None, Some(_)) => Inner::Eip2930(
                Eip2930Transaction {
                    chain_id: args.chain_id.unwrap(),
                    nonce: args.nonce.unwrap(),
                    gas_price: args.gas_price.unwrap(),
                    gas_limit: args.gas.unwrap(),
                    to,
                    value: args.value,
                    data,
                    access_list: args.hdwallet_access_list(),
                },
            ),
            (None, None) => Inner::Legacy(
                LegacyTransaction {
                    nonce: args.nonce.unwrap(),
                    gas_price: args.gas_price.unwrap(),
                    gas_limit: args.gas.unwrap(),
                    to,
                    value: args.value,
                    data,
                    chain_id: Some(args.chain_id.unwrap()),
                },
            ),
        };
        Self { args, inner }
    }
}

/// The node's answer on something that the client may have said too.
pub fn agree(given: Option<Quantity>, answer: Option<Quantity>) -> (r: Result<Quantity, Failure>)
    ensures
        match r {
            Ok(q) => agree_spec(number(given), number(answer)) == Ok::<nat, Failure>(q@),
            Err(e) => agree_spec(number(given), number(answer)) == Err::<nat, Failure>(e),
        },
{
    match answer {
        None => Err(Failure::InternalError),
        Some(n) => match given {
            Some(g) => {
                proof {
                    if g@ == n@ {
                        g.lemma_view_injective(n);
                    }
                }
                if g == n {
                    Ok(n)
                } else {
                    Err(Failure::InvalidParams)
                }
            },
            None => Ok(n),
        },
    }
}

/// An answer that is needed.
pub fn expect(answer: Option<Quantity>) -> (r: Result<Quantity, Failure>)
    ensures
        match r {
            Ok(q) => expect_spec(number(answer)) == Ok::<nat, Failure>(q@),
            Err(e) => expect_spec(number(answer)) == Err::<nat, Failure>(e),
        },
{
    match answer {
        Some(n) => Ok(n),
        None => Err(Failure::InternalError),
    }
}

/// The fee cap for a base fee and a priority fee.
pub fn fee_cap(base_fee: Quantity, priority_fee: Quantity) -> (r: Result<Quantity, Failure>)
    ensures
        match r {
            Ok(q) => fee_cap_spec(base_fee@, priority_fee@) == Ok::<nat, Failure>(q@),
            Err(e) => fee_cap_spec(base_fee@, priority_fee@) == Err::<nat, Failure>(e),
        },
{
    match base_fee.checked_mul(Quantity::new(2)) {
        None => Err(Failure::InternalError),
        Some(twice) => match twice.checked_add(priority_fee) {
            None => Err(Failure::InternalError),
            Some(cap) => Ok(cap),
        },
    }
}

impl TransactionRequest {
    /// Fills the request from the node's answers and makes the transaction
    /// of it. The client's chain and nonce must be the node's; the gas is the
    /// node's estimate where the client gave none; the fees are those of
    /// [`fees_spec`].
    pub fn merge(self, answers: &Answers) -> (r: Result<(Address, Transaction), Failure>)
        ensures
            match r {
                Ok((from, transaction)) => {
                    &&& fill_spec(self@, answers@) == Ok::<TransactionRequestView, Failure>(
                        transaction.args@,
                    )
                    &&& from == self.from.0
                    &&& transaction.wf()
                },
                Err(e) => fill_spec(self@, answers@) == Err::<TransactionRequestView, Failure>(e),
            },
    {
        let mut args = self;
        let plan = match args.plan() {
            Ok(plan) => plan,
            Err(e) => { return Err(e); },
        };
        let chain_id = match agree(args.chain_id, answers.chain_id) {
            Ok(chain_id) => chain_id,
            Err(e) => { return Err(e); },
        };
        let nonce = match agree(args.nonce, answers.nonce) {
            Ok(nonce) => nonce,
            Err(e) => { return Err(e); },
        };
        let gas = if plan.estimate_gas {
            match expect(answers.gas) {
                Ok(gas) => gas,
                Err(e) => { return Err(e); },
            }
        } else {
            args.gas.unwrap()
        };
        if plan.gas_price && plan.base_fee && plan.max_priority_fee {
            match (answers.base_fee, answers.max_priority_fee) {
                (Some(base_fee), Some(priority_fee)) => {
                    match fee_cap(base_fee, priority_fee) {
                        Ok(cap) => {
                            args.max_fee_per_gas = Some(cap);
                            args.max_priority_fee_per_gas = Some(priority_fee);
                        },
                        Err(e) => { return Err(e); },
                    }
                },
                _ => {
                    match expect(answers.gas_price) {
                        Ok(price) => {
                            args.gas_price = Some(price);
                        },
                        Err(e) => { return Err(e); },
                    }
                },
            }
        } else {
            if plan.max_priority_fee {
                match expect(answers.max_priority_fee) {
                    Ok(priority_fee) => {
                        args.max_priority_fee_per_gas = Some(priority_fee);
                    },
                    Err(e) => { return Err(e); },
                }
            }
            if plan.base_fee {
                match expect(answers.base_fee) {
                    Ok(base_fee) => {
                        match fee_cap(base_fee, args.max_priority_fee_per_gas.unwrap()) {
                            Ok(cap) => {
                                args.max_fee_per_gas = Some(cap);
                            },
                            Err(e) => { return Err(e); },
                        }
                    },
                    Err(e) => { return Err(e); },
                }
            }
        }
        args.chain_id = Some(chain_id);
        args.nonce = Some(nonce);
        args.gas = Some(gas);
        let from = args.from.0;
        Ok((from, Transaction::from_args(args)))
    }
}


/// The JSON value of a quantity.
pub open spec fn quantity_json(n: nat) -> JsonView {
    JsonView::String(quantity_encode_spec(n))
}

/// The JSON value of an address or of other bytes.
pub open spec fn bytes_json(bytes: Seq<u8>) -> JsonView {
    JsonView::String(bytes_encode_spec(bytes))
}

/// The JSON value of a quantity that may be left out.
pub open spec fn optional_quantity_json(n: Option<nat>) -> Option<JsonView> {
    match n {
        Some(n) => Some(quantity_json(n)),
        None => None,
    }
}

/// The JSON value of an access list: an array of pairs of an address and an
/// array of slots.
pub open spec fn access_list_json(list: AccessListView) -> JsonView {
    JsonView::Array(
        Seq::new(
            list.len(),
            |i: int|
                JsonView::Array(
                    seq![
                        bytes_json(list[i].0),
                        JsonView::Array(
                            Seq::new(list[i].1.len(), |j: int| bytes_json(list[i].1[j])),
                        ),
                    ],
                ),
        ),
    )
}

/// The JSON value of an access list that may be left out.
pub open spec fn optional_list_json(list: Option<AccessListView>) -> Option<JsonView> {
    match list {
        Some(list) => Some(access_list_json(list)),
        None => None,
    }
}

/// The members with one more, where there is a value for it.
pub open spec fn with(
    members: Seq<(Seq<char>, JsonView)>,
    key: Seq<char>,
    value: Option<JsonView>,
) -> Seq<(Seq<char>, JsonView)> {
    match value {
        Some(v) => members.push((key, v)),
        None => members,
    }
}

/// The members of the JSON object of a request, as the node and the policy
/// see it: `to` always, `null` for a contract creation; `value` and `data`
/// always; the others where they have a value; `from` never.
pub open spec fn transaction_members(r: TransactionRequestView) -> Seq<(Seq<char>, JsonView)> {
    let to = match r.to {
        Some(a) => bytes_json(a),
        None => JsonView::Null,
    };
    let m = seq![("to"@, to)];
    let m = with(m, "gas"@, optional_quantity_json(r.gas));
    let m = with(m, "gasPrice"@, optional_quantity_json(r.gas_price));
    let m = with(m, "maxFeePerGas"@, optional_quantity_json(r.max_fee_per_gas));
    let m = with(m, "maxPriorityFeePerGas"@, optional_quantity_json(r.max_priority_fee_per_gas));
    let m = m.push(("value"@, quantity_json(r.value)));
    let m = m.push(("data"@, bytes_json(r.data)));
    let m = with(m, "nonce"@, optional_quantity_json(r.nonce));
    let m = with(m, "accessList"@, optional_list_json(r.access_list));
    let m = with(m, "chainId"@, optional_quantity_json(r.chain_id));
    with(m, "type"@, optional_quantity_json(r.transaction_type))
}

/// The JSON value of a request.
pub open spec fn transaction_json(r: TransactionRequestView) -> JsonView {
    JsonView::Object(transaction_members(r))
}

/// Adds a member.
pub fn put(members: &mut Vec<(String, Json)>, key: &str, value: Json)
    ensures
        members_view(final(members)@) == members_view(old(members)@).push((key@, value@)),
{
    members.push((key.to_owned(), value));
    assert(members_view(members@) =~= members_view(old(members)@).push((key@, value@)));
}

/// Adds a member where there is a value for it.
pub fn add_optional(members: &mut Vec<(String, Json)>, key: &str, value: Option<Json>)
    ensures
        members_view(final(members)@) == with(
            members_view(old(members)@),
            key@,
            match value {
                Some(v) => Some(v@),
                None => None,
            },
        ),
{
    match value {
        Some(v) => {
            put(members, key, v);
        },
        None => {},
    }
}

/// The JSON value of a quantity.
pub fn quantity_to_json(q: Quantity) -> (json: Json)
    ensures
        json@ == quantity_json(q@),
{
    Json::String(q.encode())
}

/// The JSON value of a quantity that may be left out.
pub fn optional_quantity_to_json(q: Option<Quantity>) -> (json: Option<Json>)
    ensures
        match json {
            Some(j) => optional_quantity_json(number(q)) == Some(j@),
            None => optional_quantity_json(number(q)) is None,
        },
{
    match q {
        Some(q) => Some(quantity_to_json(q)),
        None => None,
    }
}

/// The JSON value of an address.
pub fn address_to_json(a: Str<Address>) -> (json: Json)
    ensures
        json@ == bytes_json(a.0@),
{
    Json::String(a.encode())
}

/// The JSON value of an access list.
pub fn access_list_to_json(list: &AccessList) -> (json: Json)
    ensures
        json@ == access_list_json(access_list_view(list@)),
{
    let ghost view = access_list_view(list@);
    let mut entries: Vec<Json> = Vec::new();
    let mut i: usize = 0;
    while i < list.len()
        invariant
            i <= list.len(),
            view == access_list_view(list@),
            entries@.len() == i,
            forall|k: int|
                0 <= k < i ==> (#[trigger] entries@[k])@ == access_list_json(view)->Array_0[k],
        decreases list.len() - i,
    {
        let slots = &list[i].1;
        let mut texts: Vec<Json> = Vec::new();
        let mut j: usize = 0;
        while j < slots.len()
            invariant
                j <= slots.len(),
                texts@.len() == j,
                forall|k: int| 0 <= k < j ==> (#[trigger] texts@[k])@ == bytes_json(slots@[k].0@),
            decreases slots.len() - j,
        {
            texts.push(Json::String(slots[j].encode_fixed()));
            j += 1;
        }
        let mut pair: Vec<Json> = Vec::new();
        pair.push(address_to_json(list[i].0));
        proof {
            lemma_array_view(texts);
            assert(items_view(texts@) =~= Seq::new(
                view[i as int].1.len(),
                |j: int| bytes_json(view[i as int].1[j]),
            ));
        }
        pair.push(Json::Array(texts));
        proof {
            lemma_array_view(pair);
            assert(items_view(pair@) =~= seq![
                bytes_json(view[i as int].0),
                JsonView::Array(
                    Seq::new(view[i as int].1.len(), |j: int| bytes_json(view[i as int].1[j])),
                ),
            ]);
        }
        entries.push(Json::Array(pair));
        i += 1;
    }
    proof {
        lemma_array_view(entries);
        assert(items_view(entries@) =~= access_list_json(view)->Array_0);
    }
    Json::Array(entries)
}

impl Transaction {
    /// The JSON value of the transaction: that of the request that it was
    /// made of.
    pub fn to_json(&self) -> (json: Json)
        ensures
            json@ == transaction_json(self.args@),
    {
        self.args.to_json()
    }
}

impl TransactionRequest {
    /// The JSON value of the request, as the node and the policy see it.
    pub fn to_json(&self) -> (json: Json)
        ensures
            json@ == transaction_json(self@),
    {
        let mut members: Vec<(String, Json)> = Vec::new();
        let to = match self.to {
            Some(a) => address_to_json(a),
            None => Json::Null,
        };
        put(&mut members, "to", to);
        assert(members_view(members@) =~= seq![("to"@, to@)]);
        add_optional(&mut members, "gas", optional_quantity_to_json(self.gas));
        add_optional(&mut members, "gasPrice", optional_quantity_to_json(self.gas_price));
        add_optional(&mut members, "maxFeePerGas", optional_quantity_to_json(self.max_fee_per_gas));
        add_optional(
            &mut members,
            "maxPriorityFeePerGas",
            optional_quantity_to_json(self.max_priority_fee_per_gas),
        );
        put(&mut members, "value", quantity_to_json(self.value));
        put(&mut members, "data", Json::String(self.data.encode()));
        add_optional(&mut members, "nonce", optional_quantity_to_json(self.nonce));
        let list = match &self.access_list {
            Some(list) => Some(access_list_to_json(list)),
            None => None,
        };
        add_optional(&mut members, "accessList", list);
        add_optional(&mut members, "chainId", optional_quantity_to_json(self.chain_id));
        add_optional(&mut members, "type", optional_quantity_to_json(self.transaction_type));
        proof {
            lemma_object_view(members);
        }
        Json::Object(members)
    }
}

/// The quantity that a JSON value stands for: a string that encodes one.
pub open spec fn quantity_of_json(json: JsonView) -> Option<nat> {
    match json {
        JsonView::String(text) => match quantity_decode_spec(text) {
            Ok(n) => Some(n),
            Err(_) => None,
        },
        _ => None,
    }
}

/// The bytes of the given width that a JSON value stands for.
pub open spec fn fixed_of_json(json: JsonView, width: nat) -> Option<Seq<u8>> {
    match json {
        JsonView::String(text) => match fixed_decode_spec(text, width) {
            Ok(bytes) => Some(bytes),
            Err(_) => None,
        },
        _ => None,
    }
}

/// The bytes that a JSON value stands for.
pub open spec fn bytes_of_json(json: JsonView) -> Option<Seq<u8>> {
    match json {
        JsonView::String(text) => match bytes_decode_spec(text) {
            Ok(bytes) => Some(bytes),
            Err(_) => None,
        },
        _ => None,
    }
}

/// A quantity that may be left out or be `null`: `None` where what is there
/// is no quantity.
pub open spec fn optional_quantity_of(member: Option<JsonView>) -> Option<Option<nat>> {
    match member {
        None => Some(None),
        Some(JsonView::Null) => Some(None),
        Some(json) => match quantity_of_json(json) {
            Some(n) => Some(Some(n)),
            None => None,
        },
    }
}

/// An address that may be left out or be `null`.
pub open spec fn optional_address_of(member: Option<JsonView>) -> Option<Option<Seq<u8>>> {
    match member {
        None => Some(None),
        Some(JsonView::Null) => Some(None),
        Some(json) => match fixed_of_json(json, 20) {
            Some(a) => Some(Some(a)),
            None => None,
        },
    }
}

/// The slots that a JSON value stands for: an array of slots of 32 bytes.
pub open spec fn slots_of_json(json: JsonView) -> Option<Seq<Seq<u8>>> {
    match json {
        JsonView::Array(items) => if forall|j: int|
            0 <= j < items.len() ==> (#[trigger] fixed_of_json(items[j], 32)) is Some {
            Some(Seq::new(items.len(), |j: int| fixed_of_json(items[j], 32).unwrap()))
        } else {
            None
        },
        _ => None,
    }
}

/// The entry of an access list that a JSON value stands for: an array of an
/// address and of slots.
pub open spec fn entry_of_json(json: JsonView) -> Option<(Seq<u8>, Seq<Seq<u8>>)> {
    match json {
        JsonView::Array(items) => if items.len() == 2 {
            match (fixed_of_json(items[0], 20), slots_of_json(items[1])) {
                (Some(a), Some(slots)) => Some((a, slots)),
                _ => None,
            }
        } else {
            None
        },
        _ => None,
    }
}

/// The access list that a JSON value stands for: an array of entries.
pub open spec fn access_list_of_json(json: JsonView) -> Option<AccessListView> {
    match json {
        JsonView::Array(items) => if forall|i: int|
            0 <= i < items.len() ==> (#[trigger] entry_of_json(items[i])) is Some {
            Some(Seq::new(items.len(), |i: int| entry_of_json(items[i]).unwrap()))
        } else {
            None
        },
        _ => None,
    }
}

/// An access list that may be left out or be `null`.
pub open spec fn optional_list_of(member: Option<JsonView>) -> Option<Option<AccessListView>> {
    match member {
        None => Some(None),
        Some(JsonView::Null) => Some(None),
        Some(json) => match access_list_of_json(json) {
            Some(list) => Some(Some(list)),
            None => None,
        },
    }
}

/// Whether a key is one of a transaction request.
pub open spec fn is_transaction_key(key: Seq<char>) -> bool {
    ||| key == "from"@
    ||| key == "to"@
    ||| key == "gas"@
    ||| key == "gasPrice"@
    ||| key == "maxFeePerGas"@
    ||| key == "maxPriorityFeePerGas"@
    ||| key == "value"@
    ||| key == "data"@
    ||| key == "nonce"@
    ||| key == "accessList"@
    ||| key == "chainId"@
    ||| key == "type"@
}

/// The request that a JSON value stands for: an object with no other keys
/// than those of a request, with `from`, and with a value of the right form
/// under each key that it has. `value` is zero and `data` is empty where they
/// are left out; the others may be left out or be `null`.
pub open spec fn json_transaction(json: JsonView) -> Option<TransactionRequestView> {
    match json {
        JsonView::Object(m) => {
            let from = match lookup(m, "from"@) {
                Some(j) => fixed_of_json(j, 20),
                None => None,
            };
            let value = match lookup(m, "value"@) {
                Some(j) => quantity_of_json(j),
                None => Some(0nat),
            };
            let data = match lookup(m, "data"@) {
                Some(j) => bytes_of_json(j),
                None => Some(Seq::<u8>::empty()),
            };
            let to = optional_address_of(lookup(m, "to"@));
            let gas = optional_quantity_of(lookup(m, "gas"@));
            let gas_price = optional_quantity_of(lookup(m, "gasPrice"@));
            let max_fee_per_gas = optional_quantity_of(lookup(m, "maxFeePerGas"@));
            let max_priority_fee_per_gas = optional_quantity_of(
                lookup(m, "maxPriorityFeePerGas"@),
            );
            let nonce = optional_quantity_of(lookup(m, "nonce"@));
            let access_list = optional_list_of(lookup(m, "accessList"@));
            let chain_id = optional_quantity_of(lookup(m, "chainId"@));
            let transaction_type = optional_quantity_of(lookup(m, "type"@));
            if keys_within(m, Set::new(|k: Seq<char>| is_transaction_key(k))) && from is Some
                && to is Some && gas is Some && gas_price is Some && max_fee_per_gas is Some
                && max_priority_fee_per_gas is Some && value is Some && data is Some
                && nonce is Some && access_list is Some && chain_id is Some
                && transaction_type is Some {
                Some(
                    TransactionRequestView {
                        from: from.unwrap(),
                        to: to.unwrap(),
                        gas: gas.unwrap(),
                        gas_price: gas_price.unwrap(),
                        max_fee_per_gas: max_fee_per_gas.unwrap(),
                        max_priority_fee_per_gas: max_priority_fee_per_gas.unwrap(),
                        value: value.unwrap(),
                        data: data.unwrap(),
                        nonce: nonce.unwrap(),
                        access_list: access_list.unwrap(),
                        chain_id: chain_id.unwrap(),
                        transaction_type: transaction_type.unwrap(),
                    },
                )
            } else {
                None
            }
        },
        _ => None,
    }
}

/// Reads a quantity.
pub fn quantity_from_json(json: &Json) -> (r: Option<Quantity>)
    ensures
        number(r) == quantity_of_json(json@),
{
    match json.as_text() {
        Some(text) => match Quantity::decode(text.as_str()) {
            Ok(q) => Some(q),
            Err(_) => None,
        },
        None => None,
    }
}

/// Reads an address.
pub fn address_from_json(json: &Json) -> (r: Option<Str<Address>>)
    ensures
        account(r) == fixed_of_json(json@, 20),
{
    match json.as_text() {
        Some(text) => match Str::<Address>::decode(text.as_str()) {
            Ok(a) => Some(a),
            Err(_) => None,
        },
        None => None,
    }
}

/// Reads a quantity that may be left out or be `null`; the outer `None` is
/// for what is no quantity.
pub fn optional_quantity_from(member: Option<&Json>) -> (r: Option<Option<Quantity>>)
    ensures
        match r {
            Some(q) => optional_quantity_of(
                match member {
                    Some(j) => Some(j@),
                    None => None,
                },
            ) == Some(number(q)),
            None => optional_quantity_of(
                match member {
                    Some(j) => Some(j@),
                    None => None,
                },
            ) is None,
        },
{
    match member {
        None => Some(None),
        Some(json) => {
            if json.is_null() {
                Some(None)
            } else {
                match quantity_from_json(json) {
                    Some(q) => Some(Some(q)),
                    None => None,
                }
            }
        },
    }
}

/// Reads an address that may be left out or be `null`.
pub fn optional_address_from(member: Option<&Json>) -> (r: Option<Option<Str<Address>>>)
    ensures
        match r {
            Some(a) => optional_address_of(
                match member {
                    Some(j) => Some(j@),
                    None => None,
                },
            ) == Some(account(a)),
            None => optional_address_of(
                match member {
                    Some(j) => Some(j@),
                    None => None,
                },
            ) is None,
        },
{
    match member {
        None => Some(None),
        Some(json) => {
            if json.is_null() {
                Some(None)
            } else {
                match address_from_json(json) {
                    Some(a) => Some(Some(a)),
                    None => None,
                }
            }
        },
    }
}

/// Reads the slots of an access list entry.
pub fn slots_from_json(json: &Json) -> (r: Option<Vec<Bytes<[u8; 32]>>>)
    ensures
        match r {
            Some(slots) => slots_of_json(json@) == Some(slots_view(slots@)),
            None => slots_of_json(json@) is None,
        },
{
    let items = match json.as_items() {
        Some(items) => items,
        None => { return None; },
    };
    let ghost views = items_view(items@);
    let mut out: Vec<Bytes<[u8; 32]>> = Vec::new();
    let mut j: usize = 0;
    while j < items.len()
        invariant
            j <= items.len(),
            views == items_view(items@),
            json@ == JsonView::Array(views),
            out@.len() == j,
            forall|k: int|
                0 <= k < j ==> (#[trigger] fixed_of_json(views[k], 32)) == Some(out@[k].0@),
        decreases items.len() - j,
    {
        let text = match items[j].as_text() {
            Some(text) => text,
            None => {
                assert(fixed_of_json(views[j as int], 32) is None);
                return None;
            },
        };
        match Bytes::<[u8; 32]>::decode_fixed(text.as_str()) {
            Ok(slot) => {
                out.push(slot);
            },
            Err(_) => {
                assert(fixed_of_json(views[j as int], 32) is None);
                return None;
            },
        }
        j += 1;
    }
    assert(slots_view(out@) =~= Seq::new(
        views.len(),
        |j: int| fixed_of_json(views[j], 32).unwrap(),
    ));
    Some(out)
}

/// Reads an access list.
pub fn access_list_from_json(json: &Json) -> (r: Option<AccessList>)
    ensures
        match r {
            Some(list) => access_list_of_json(json@) == Some(access_list_view(list@)),
            None => access_list_of_json(json@) is None,
        },
{
    let items = match json.as_items() {
        Some(items) => items,
        None => { return None; },
    };
    let ghost views = items_view(items@);
    let mut out: AccessList = Vec::new();
    let mut i: usize = 0;
    while i < items.len()
        invariant
            i <= items.len(),
            views == items_view(items@),
            json@ == JsonView::Array(views),
            out@.len() == i,
            forall|k: int|
                0 <= k < i ==> (#[trigger] entry_of_json(views[k])) == Some(
                    (out@[k].0.0@, slots_view(out@[k].1@)),
                ),
        decreases items.len() - i,
    {
        let pair = match items[i].as_items() {
            Some(pair) => pair,
            None => {
                assert(entry_of_json(views[i as int]) is None);
                return None;
            },
        };
        if pair.len() != 2 {
            assert(entry_of_json(views[i as int]) is None);
            return None;
        }
        let ghost parts = items_view(pair@);
        assert(parts[0] == pair@[0]@ && parts[1] == pair@[1]@);
        let address = match address_from_json(&pair[0]) {
            Some(a) => a,
            None => {
                assert(entry_of_json(views[i as int]) is None);
                return None;
            },
        };
        let slots = match slots_from_json(&pair[1]) {
            Some(slots) => slots,
            None => {
                assert(entry_of_json(views[i as int]) is None);
                return None;
            },
        };
        out.push((address, slots));
        i += 1;
    }
    assert(access_list_view(out@) =~= Seq::new(
        views.len(),
        |i: int| entry_of_json(views[i]).unwrap(),
    ));
    Some(out)
}

/// Whether a key is one of a transaction request.
pub fn known_key(key: &String) -> (r: bool)
    ensures
        r == is_transaction_key(key@),
{
    *key == "from".to_owned() || *key == "to".to_owned() || *key == "gas".to_owned() || *key
        == "gasPrice".to_owned() || *key == "maxFeePerGas".to_owned() || *key
        == "maxPriorityFeePerGas".to_owned() || *key == "value".to_owned() || *key
        == "data".to_owned() || *key == "nonce".to_owned() || *key == "accessList".to_owned()
        || *key == "chainId".to_owned() || *key == "type".to_owned()
}

/// Whether every key of the members is one of a transaction request.
pub fn known_keys(members: &Vec<(String, Json)>) -> (r: bool)
    ensures
        r == keys_within(members_view(members@), Set::new(|k: Seq<char>| is_transaction_key(k))),
{
    let ghost all = members_view(members@);
    let ghost known = Set::new(|k: Seq<char>| is_transaction_key(k));
    let mut i: usize = 0;
    while i < members.len()
        invariant
            i <= members.len(),
            all == members_view(members@),
            known == Set::new(|k: Seq<char>| is_transaction_key(k)),
            forall|k: int| 0 <= k < i ==> known.contains(#[trigger] all[k].0),
        decreases members.len() - i,
    {
        if !known_key(&members[i].0) {
            assert(!known.contains(all[i as int].0));
            return false;
        }
        assert(known.contains(all[i as int].0));
        i += 1;
    }
    true
}

/// The value of what may have been found.
pub open spec fn found(member: Option<&Json>) -> Option<JsonView> {
    match member {
        Some(j) => Some(j@),
        None => None,
    }
}

impl TransactionRequest {
    /// Reads a request; unknown keys are refused.
    #[verifier::rlimit(80)]
    pub fn from_json(json: &Json) -> (r: Option<TransactionRequest>)
        ensures
            match r {
                Some(request) => json_transaction(json@) == Some(request@),
                None => json_transaction(json@) is None,
            },
    {
        let members = match json.as_members() {
            Some(members) => members,
            None => { return None; },
        };
        if !known_keys(members) {
            return None;
        }
        let from = match find(members, "from") {
            Some(j) => match address_from_json(j) {
                Some(a) => a,
                None => { return None; },
            },
            None => { return None; },
        };
        let to = match optional_address_from(find(members, "to")) {
            Some(a) => a,
            None => { return None; },
        };
        let gas = match optional_quantity_from(find(members, "gas")) {
            Some(q) => q,
            None => { return None; },
        };
        let gas_price = match optional_quantity_from(find(members, "gasPrice")) {
            Some(q) => q,
            None => { return None; },
        };
        let max_fee_per_gas = match optional_quantity_from(find(members, "maxFeePerGas")) {
            Some(q) => q,
            None => { return None; },
        };
        let max_priority_fee_per_gas = match optional_quantity_from(
            find(members, "maxPriorityFeePerGas"),
        ) {
            Some(q) => q,
            None => { return None; },
        };
        let value = match find(members, "value") {
            Some(j) => match quantity_from_json(j) {
                Some(q) => q,
                None => { return None; },
            },
            None => Quantity::new(0),
        };
        let data = match find(members, "data") {
            Some(j) => match j.as_text() {
                Some(text) => match Bytes::<Vec<u8>>::decode(text.as_str()) {
                    Ok(bytes) => bytes,
                    Err(_) => { return None; },
                },
                None => { return None; },
            },
            None => Bytes(Vec::new()),
        };
        let nonce = match optional_quantity_from(find(members, "nonce")) {
            Some(q) => q,
            None => { return None; },
        };
        let access_list = match find(members, "accessList") {
            None => None,
            Some(j) => {
                if j.is_null() {
                    None
                } else {
                    match access_list_from_json(j) {
                        Some(list) => Some(list),
                        None => { return None; },
                    }
                }
            },
        };
        let chain_id = match optional_quantity_from(find(members, "chainId")) {
            Some(q) => q,
            None => { return None; },
        };
        let transaction_type = match optional_quantity_from(find(members, "type")) {
            Some(q) => q,
            None => { return None; },
        };
        Some(
            TransactionRequest {
                from,
                to,
                gas,
                gas_price,
                max_fee_per_gas,
                max_priority_fee_per_gas,
                value,
                data,
                nonce,
                access_list,
                chain_id,
                transaction_type,
            },
        )
    }
}


/// The calls that fill a request, in the order in which they are made: for
/// the chain unless it is known, for the account's transaction count, then
/// as the plan says for the gas, the gas price, the base fee and a priority
/// fee.
pub open spec fn fill_calls(r: TransactionRequestView, plan: Plan, known: bool) -> Seq<
    (Seq<char>, Seq<JsonView>),
> {
    let c = if known {
        Seq::empty()
    } else {
        seq![("eth_chainId"@, Seq::<JsonView>::empty())]
    };
    let c = c.push(
        ("eth_getTransactionCount"@, seq![bytes_json(r.from), block_json(Block::Latest)]),
    );
    let c = if plan.estimate_gas {
        c.push(("eth_estimateGas"@, seq![transaction_json(r), block_json(Block::Pending)]))
    } else {
        c
    };
    let c = if plan.gas_price {
        c.push(("eth_gasPrice"@, Seq::<JsonView>::empty()))
    } else {
        c
    };
    let c = if plan.base_fee {
        c.push(
            (
                "eth_feeHistory"@,
                seq![
                    quantity_json(1),
                    block_json(Block::Latest),
                    JsonView::Array(Seq::empty()),
                ],
            ),
        )
    } else {
        c
    };
    if plan.max_priority_fee {
        c.push(("eth_maxPriorityFeePerGas"@, Seq::<JsonView>::empty()))
    } else {
        c
    }
}

/// The id of the call that is made after a number of others.
pub open spec fn id_after(first: u64, k: nat) -> u64
    decreases k,
{
    if k == 0 {
        first
    } else {
        next_id(id_after(first, (k - 1) as nat))
    }
}

/// Whether a queue holds the given calls, in their order and with ids that
/// follow each other from the first.
pub open spec fn sent(
    queue: Seq<Request>,
    calls: Seq<(Seq<char>, Seq<JsonView>)>,
    first: u64,
) -> bool {
    &&& queue.len() == calls.len()
    &&& forall|k: int|
        0 <= k < queue.len() ==> (#[trigger] queue[k])@ == call_view(
            calls[k].0,
            calls[k].1,
            id_after(first, k as nat),
        )
}

/// A queue that holds some calls holds one more after the next is queued.
pub proof fn lemma_sent_push(
    before: Seq<Request>,
    after: Seq<Request>,
    calls: Seq<(Seq<char>, Seq<JsonView>)>,
    method: Seq<char>,
    params: Seq<JsonView>,
    first: u64,
)
    requires
        sent(before, calls, first),
        queued(before, after, method, params, id_after(first, before.len())),
    ensures
        sent(after, calls.push((method, params)), first),
        id_after(first, after.len()) == next_id(id_after(first, before.len())),
{
    let all = calls.push((method, params));
    assert forall|k: int| 0 <= k < after.len() implies (#[trigger] after[k])@ == call_view(
        all[k].0,
        all[k].1,
        id_after(first, k as nat),
    ) by {
        if k < before.len() {
            assert(after[k] == after.drop_last()[k]);
            assert(before[k]@ == call_view(calls[k].0, calls[k].1, id_after(first, k as nat)));
        } else {
            assert(after[k] == after.last());
        }
    }
}

/// A request that waits for the node: where the chain comes from, and the
/// places in the batch of the answers that it needs.
#[derive(Debug)]
pub struct Filling {
    pub request: TransactionRequest,
    pub chain_id: Handle,
    pub nonce: usize,
    pub gas: Option<usize>,
    pub gas_price: Option<usize>,
    pub base_fee: Option<usize>,
    pub max_priority_fee: Option<usize>,
}

/// The quantity in the answer at a place that may be none.
pub open spec fn quantity_at_optional(responses: Seq<ResponseView>, slot: Option<usize>) -> Option<
    nat,
> {
    match slot {
        Some(slot) => quantity_at(responses, slot as int),
        None => None,
    }
}

impl Filling {
    /// What the node answered, read at the places of the calls.
    pub open spec fn answers(&self, responses: Seq<ResponseView>) -> AnswersView {
        AnswersView {
            chain_id: match self.chain_id {
                Handle::Known(chain_id) => Some(chain_id@),
                Handle::Slot(slot) => quantity_at(responses, slot as int),
            },
            nonce: quantity_at(responses, self.nonce as int),
            gas: quantity_at_optional(responses, self.gas),
            gas_price: quantity_at_optional(responses, self.gas_price),
            base_fee: match self.base_fee {
                Some(slot) => base_fee_at(responses, slot as int),
                None => None,
            },
            max_priority_fee: quantity_at_optional(responses, self.max_priority_fee),
        }
    }

    /// Whether each place is that of its call in the queue, and there is a
    /// place for each call of the plan and for no other.
    pub open spec fn placed(&self, plan: Plan, queue: Seq<Request>) -> bool {
        &&& self.chain_id matches Handle::Slot(slot) ==> slot < queue.len() && queue[slot as int]@.method
            == "eth_chainId"@
        &&& self.nonce < queue.len() && queue[self.nonce as int]@.method
            == "eth_getTransactionCount"@
        &&& self.gas is Some == plan.estimate_gas
        &&& self.gas matches Some(slot) ==> slot < queue.len() && queue[slot as int]@.method
            == "eth_estimateGas"@
        &&& self.gas_price is Some == plan.gas_price
        &&& self.gas_price matches Some(slot) ==> slot < queue.len() && queue[slot as int]@.method
            == "eth_gasPrice"@
        &&& self.base_fee is Some == plan.base_fee
        &&& self.base_fee matches Some(slot) ==> slot < queue.len() && queue[slot as int]@.method
            == "eth_feeHistory"@
        &&& self.max_priority_fee is Some == plan.max_priority_fee
        &&& self.max_priority_fee matches Some(slot) ==> slot < queue.len()
            && queue[slot as int]@.method == "eth_maxPriorityFeePerGas"@
    }
}

impl TransactionRequest {
    /// Begins to fill the request: refuses it where it names a gas price
    /// and a fee of the fee market, and else queues in one batch all that is
    /// asked of the node. The answers go to [`Filling::finish`].
    pub fn fill(self, eth: &mut Eth) -> (r: Result<(Filling, Batch), Failure>)
        ensures
            match r {
                Err(e) => plan_spec(self@) == Err::<Plan, Failure>(e) && *final(eth) == *old(eth),
                Ok((filling, batch)) => {
                    &&& plan_spec(self@) is Ok
                    &&& filling.request == self
                    &&& filling.chain_id is Known <==> old(eth).chain_id_cache.0 is Some
                    &&& filling.chain_id matches Handle::Known(chain_id) ==> old(
                        eth,
                    ).chain_id_cache.0 == Some(chain_id)
                    &&& filling.placed(plan_spec(self@).unwrap(), batch.queue@)
                    &&& sent(
                        batch.queue@,
                        fill_calls(
                            self@,
                            plan_spec(self@).unwrap(),
                            old(eth).chain_id_cache.0 is Some,
                        ),
                        old(eth).ids,
                    )
                    &&& final(eth).ids == id_after(old(eth).ids, batch.queue@.len())
                    &&& final(eth).client == old(eth).client
                    &&& final(eth).chain_id_cache == old(eth).chain_id_cache
                },
            },
    {
        let plan = match self.plan() {
            Ok(plan) => plan,
            Err(e) => { return Err(e); },
        };
        let ghost first = eth.ids;
        let ghost view = self@;
        let ghost known = eth.chain_id_cache.0 is Some;
        let mut batch = eth.batch();
        let ghost q0 = batch.queue@;
        let ghost c0 = Seq::<(Seq<char>, Seq<JsonView>)>::empty();
        assert(sent(q0, c0, first));
        let chain_id = batch.chain_id(eth);
        let ghost q1 = batch.queue@;
        let ghost c1 = if known {
            c0
        } else {
            c0.push(("eth_chainId"@, Seq::<JsonView>::empty()))
        };
        proof {
            if !known {
                lemma_sent_push(q0, q1, c0, "eth_chainId"@, Seq::<JsonView>::empty(), first);
                assert(c1 =~= seq![("eth_chainId"@, Seq::<JsonView>::empty())]);
            } else {
                assert(c1 =~= Seq::empty());
            }
        }
        let nonce = batch.get_transaction_count(eth, self.from.0, Block::Latest);
        let ghost q2 = batch.queue@;
        let ghost c2 = c1.push(
            ("eth_getTransactionCount"@, seq![bytes_json(view.from), block_json(Block::Latest)]),
        );
        proof {
            lemma_sent_push(
                q1,
                q2,
                c1,
                "eth_getTransactionCount"@,
                seq![bytes_json(view.from), block_json(Block::Latest)],
                first,
            );
        }
        let gas = if plan.estimate_gas {
            Some(batch.estimate_gas(eth, &self, Block::Pending))
        } else {
            None
        };
        let ghost q3 = batch.queue@;
        let ghost c3 = if plan.estimate_gas {
            c2.push(("eth_estimateGas"@, seq![transaction_json(view), block_json(Block::Pending)]))
        } else {
            c2
        };
        proof {
            if plan.estimate_gas {
                lemma_sent_push(
                    q2,
                    q3,
                    c2,
                    "eth_estimateGas"@,
                    seq![transaction_json(view), block_json(Block::Pending)],
                    first,
                );
            }
        }
        let gas_price = if plan.gas_price {
            Some(batch.gas_price(eth))
        } else {
            None
        };
        let ghost q4 = batch.queue@;
        let ghost c4 = if plan.gas_price {
            c3.push(("eth_gasPrice"@, Seq::<JsonView>::empty()))
        } else {
            c3
        };
        proof {
            if plan.gas_price {
                lemma_sent_push(q3, q4, c3, "eth_gasPrice"@, Seq::<JsonView>::empty(), first);
            }
        }
        let base_fee = if plan.base_fee {
            Some(batch.base_fee(eth))
        } else {
            None
        };
        let ghost q5 = batch.queue@;
        let ghost fee_history = seq![
            quantity_json(1),
            block_json(Block::Latest),
            JsonView::Array(Seq::empty()),
        ];
        let ghost c5 = if plan.base_fee {
            c4.push(("eth_feeHistory"@, fee_history))
        } else {
            c4
        };
        proof {
            if plan.base_fee {
                lemma_sent_push(q4, q5, c4, "eth_feeHistory"@, fee_history, first);
            }
        }
        let max_priority_fee = if plan.max_priority_fee {
            Some(batch.max_priority_fee_per_gas(eth))
        } else {
            None
        };
        let ghost q6 = batch.queue@;
        let ghost c6 = if plan.max_priority_fee {
            c5.push(("eth_maxPriorityFeePerGas"@, Seq::<JsonView>::empty()))
        } else {
            c5
        };
        proof {
            if plan.max_priority_fee {
                lemma_sent_push(
                    q5,
                    q6,
                    c5,
                    "eth_maxPriorityFeePerGas"@,
                    Seq::<JsonView>::empty(),
                    first,
                );
            }
            assert(c6 == fill_calls(view, plan, known));
            assert(sent(q6, c6, first));
            assert forall|k: int| 0 <= k < q6.len() implies (#[trigger] q6[k])@.method
                == c6[k].0 by {
                assert(q6[k]@ == call_view(c6[k].0, c6[k].1, id_after(first, k as nat)));
            }
        }
        let filling = Filling {
            request: self,
            chain_id,
            nonce,
            gas,
            gas_price,
            base_fee,
            max_priority_fee,
        };
        Ok((filling, batch))
    }
}

impl Filling {
    /// Reads the node's answers at their places, takes note of the chain
    /// where the node told it, and fills the request from the answers.
    pub fn finish(self, eth: &mut Eth, responses: &Vec<Response>) -> (r: Result<
        (Address, Transaction),
        Failure,
    >)
        ensures
            match r {
                Ok((from, transaction)) => {
                    &&& fill_spec(self.request@, self.answers(responses_view(responses@))) == Ok::<
                        TransactionRequestView,
                        Failure,
                    >(transaction.args@)
                    &&& from == self.request.from.0
                    &&& transaction.wf()
                },
                Err(e) => fill_spec(self.request@, self.answers(responses_view(responses@)))
                    == Err::<TransactionRequestView, Failure>(e),
            },
            old(eth).chain_id_cache.0 is Some ==> final(eth).chain_id_cache == old(
                eth,
            ).chain_id_cache,
            old(eth).chain_id_cache.0 is None ==> number(final(eth).chain_id_cache.0) == (match self.chain_id {
                Handle::Known(_) => None,
                Handle::Slot(slot) => quantity_at(responses_view(responses@), slot as int),
            }),
            final(eth).ids == old(eth).ids,
            final(eth).client == old(eth).client,
    {
        let chain_id = match self.chain_id {
            Handle::Known(chain_id) => Some(chain_id),
            Handle::Slot(slot) => {
                let answer = read_quantity(responses, slot);
                eth.learn_chain_id(answer);
                answer
            },
        };
        let answers = Answers {
            chain_id,
            nonce: read_quantity(responses, self.nonce),
            gas: match self.gas {
                Some(slot) => read_quantity(responses, slot),
                None => None,
            },
            gas_price: match self.gas_price {
                Some(slot) => read_quantity(responses, slot),
                None => None,
            },
            base_fee: match self.base_fee {
                Some(slot) => read_base_fee(responses, slot),
                None => None,
            },
            max_priority_fee: match self.max_priority_fee {
                Some(slot) => read_quantity(responses, slot),
                None => None,
            },
        };
        assert(answers@ == self.answers(responses_view(responses@)));
        self.request.merge(&answers)
    }
}

} // verus!

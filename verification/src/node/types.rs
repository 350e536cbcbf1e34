//! Values of the node's interface that are more than a quantity.

use crate::json::find;
use crate::json::items_view;
use crate::json::lookup;
use crate::json::Json;
use crate::json::JsonView;
use crate::node::transaction::number;
use crate::node::transaction::quantity_from_json;
use crate::node::transaction::quantity_json;
use crate::node::transaction::quantity_of_json;
use crate::node::transaction::quantity_to_json;
use crate::serialization::Quantity;
use vstd::prelude::*;

verus! {

/// The block that a call speaks of.
#[derive(Clone, Copy, Debug, PartialEq, Eq, Structural)]
pub enum Block {
    /// The latest block.
    Latest,
    /// The block that is being made.
    Pending,
    /// The block of the given number.
    Number(Quantity),
}

/// The JSON value of a block: `latest`, `pending`, or its number.
pub open spec fn block_json(block: Block) -> JsonView {
    match block {
        Block::Latest => JsonView::String("latest"@),
        Block::Pending => JsonView::String("pending"@),
        Block::Number(n) => quantity_json(n@),
    }
}

impl Block {
    /// The JSON value of the block.
    pub fn to_json(&self) -> (json: Json)
        ensures
            json@ == block_json(*self),
    {
        match self {
            Block::Latest => Json::text("latest"),
            Block::Pending => Json::text("pending"),
            Block::Number(n) => quantity_to_json(*n),
        }
    }
}

/// What the node tells of the fees of the latest blocks.
#[derive(Debug)]
pub struct FeeHistory {
    /// The base fee of each block, and of the one after the last.
    pub base_fee_per_gas: Vec<Quantity>,
    /// How full each block was.
    pub gas_used_ratio: Vec<Json>,
    /// The number of the first block.
    pub oldest_block: Quantity,
    /// The priority fees paid in each block, where they were asked for.
    pub reward: Option<Vec<Vec<Quantity>>>,
}

/// The numbers of a list of quantities.
pub open spec fn numbers(list: Seq<Quantity>) -> Seq<nat> {
    Seq::new(list.len(), |i: int| list[i]@)
}

/// The quantities that a JSON value stands for: an array of quantities.
pub open spec fn quantities_of_json(json: JsonView) -> Option<Seq<nat>> {
    match json {
        JsonView::Array(items) => if forall|i: int|
            0 <= i < items.len() ==> (#[trigger] quantity_of_json(items[i])) is Some {
            Some(Seq::new(items.len(), |i: int| quantity_of_json(items[i]).unwrap()))
        } else {
            None
        },
        _ => None,
    }
}

/// Whether what stands under `reward` is nothing, `null`, or an array of
/// arrays of quantities.
pub open spec fn rewards_ok(member: Option<JsonView>) -> bool {
    match member {
        None => true,
        Some(JsonView::Null) => true,
        Some(JsonView::Array(rows)) => forall|i: int|
            0 <= i < rows.len() ==> (#[trigger] quantities_of_json(rows[i])) is Some,
        _ => false,
    }
}

/// The base fees that a JSON value holds as a fee history: what stands under
/// `baseFeePerGas` of an object that has `gasUsedRatio`, an array, and
/// `oldestBlock`, a quantity, and under `reward` nothing, `null` or an array
/// of arrays of quantities.
pub open spec fn base_fees_of_json(json: JsonView) -> Option<Seq<nat>> {
    match json {
        JsonView::Object(m) => {
            let fees = match lookup(m, "baseFeePerGas"@) {
                Some(j) => quantities_of_json(j),
                None => None,
            };
            let ratios = match lookup(m, "gasUsedRatio"@) {
                Some(JsonView::Array(_)) => true,
                _ => false,
            };
            let oldest = match lookup(m, "oldestBlock"@) {
                Some(j) => quantity_of_json(j) is Some,
                None => false,
            };
            let reward = rewards_ok(lookup(m, "reward"@));
            if ratios && oldest && reward {
                fees
            } else {
                None
            }
        },
        _ => None,
    }
}

/// The base fee of the next block in a fee history of one block: the second
/// of its base fees.
pub open spec fn base_fee_of_json(json: JsonView) -> Option<nat> {
    match base_fees_of_json(json) {
        Some(fees) => if fees.len() >= 2 {
            Some(fees[1])
        } else {
            None
        },
        None => None,
    }
}

/// Reads a list of quantities.
pub fn quantities_from_json(json: &Json) -> (r: Option<Vec<Quantity>>)
    ensures
        match r {
            Some(list) => quantities_of_json(json@) == Some(numbers(list@)),
            None => quantities_of_json(json@) is None,
        },
{
    let items = match json.as_items() {
        Some(items) => items,
        None => { return None; },
    };
    let ghost views = items_view(items@);
    let mut out: Vec<Quantity> = Vec::new();
    let mut i: usize = 0;
    while i < items.len()
        invariant
            i <= items.len(),
            views == items_view(items@),
            json@ == JsonView::Array(views),
            out@.len() == i,
            forall|k: int| 0 <= k < i ==> (#[trigger] quantity_of_json(views[k])) == Some(out@[k]@),
        decreases items.len() - i,
    {
        match quantity_from_json(&items[i]) {
            Some(q) => {
                out.push(q);
            },
            None => {
                assert(quantity_of_json(views[i as int]) is None);
                return None;
            },
        }
        i += 1;
    }
    assert(numbers(out@) =~= Seq::new(views.len(), |i: int| quantity_of_json(views[i]).unwrap()));
    Some(out)
}

impl FeeHistory {
    /// Reads a fee history.
    pub fn from_json(json: &Json) -> (r: Option<FeeHistory>)
        ensures
            match r {
                Some(history) => base_fees_of_json(json@) == Some(numbers(history.base_fee_per_gas@)),
                None => base_fees_of_json(json@) is None,
            },
    {
        let members = match json.as_members() {
            Some(members) => members,
            None => { return None; },
        };
        let base_fee_per_gas = match find(members, "baseFeePerGas") {
            Some(j) => match quantities_from_json(j) {
                Some(list) => list,
                None => { return None; },
            },
            None => { return None; },
        };
        let gas_used_ratio = match find(members, "gasUsedRatio") {
            Some(j) => match j.as_items() {
                Some(items) => crate::json::clone_items(items),
                None => { return None; },
            },
            None => { return None; },
        };
        let oldest_block = match find(members, "oldestBlock") {
            Some(j) => match quantity_from_json(j) {
                Some(q) => q,
                None => { return None; },
            },
            None => { return None; },
        };
        let reward = match find(members, "reward") {
            None => None,
            Some(j) => {
                if j.is_null() {
                    None
                } else {
                    let rows = match j.as_items() {
                        Some(rows) => rows,
                        None => { return None; },
                    };
                    let ghost views = items_view(rows@);
                    let mut out: Vec<Vec<Quantity>> = Vec::new();
                    let mut i: usize = 0;
                    while i < rows.len()
                        invariant
                            i <= rows.len(),
                            views == items_view(rows@),
                            out@.len() == i,
                            forall|k: int|
                                0 <= k < i ==> (#[trigger] quantities_of_json(views[k])) is Some,
                        ensures
                            i <= rows.len(),
                            i == rows.len() ==> forall|k: int|
                                0 <= k < rows.len() ==> (#[trigger] quantities_of_json(views[k]))
                                    is Some,
                            i < rows.len() ==> quantities_of_json(views[i as int]) is None,
                        decreases rows.len() - i,
                    {
                        match quantities_from_json(&rows[i]) {
                            Some(row) => {
                                out.push(row);
                            },
                            None => {
                                break ;
                            },
                        }
                        i += 1;
                    }
                    if i < rows.len() {
                        assert(j@ == JsonView::Array(views));
                        assert(quantities_of_json(views[i as int]) is None);
                        assert(!rewards_ok(Some(j@)));
                        return None;
                    }
                    Some(out)
                }
            },
        };
        Some(FeeHistory { base_fee_per_gas, gas_used_ratio, oldest_block, reward })
    }

    /// The base fee of the block after the first of the history.
    pub fn next_base_fee(&self) -> (r: Option<Quantity>)
        ensures
            number(r) == (if self.base_fee_per_gas@.len() >= 2 {
                Some(self.base_fee_per_gas@[1]@)
            } else {
                None
            }),
    {
        if self.base_fee_per_gas.len() >= 2 {
            Some(self.base_fee_per_gas[1])
        } else {
            None
        }
    }
}

/// Reads the base fee of the next block from a fee history.
pub fn base_fee_from_json(json: &Json) -> (r: Option<Quantity>)
    ensures
        number(r) == base_fee_of_json(json@),
{
    match FeeHistory::from_json(json) {
        Some(history) => history.next_base_fee(),
        None => None,
    }
}

} // verus!

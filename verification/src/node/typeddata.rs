//! Typed data to sign: the JSON that the client sent, and the chain that its
//! domain names.

use crate::json::find;
use crate::json::lookup;
use crate::json::u64_of_text;
use crate::json::Json;
use crate::json::JsonView;
use crate::node::transaction::number;
use crate::node::transaction::Failure;
use crate::serialization::radix_parse;
use crate::serialization::strip_prefix;
use crate::serialization::strip_prefix_spec;
use crate::serialization::Quantity;
use vstd::prelude::*;

verus! {

/// Typed data as the client sent it, with the chain of its domain where the
/// domain names one.
#[derive(Debug)]
pub struct TypedData {
    pub raw: Json,
    pub chain_id: Option<Quantity>,
}

/// What stands under a key of a JSON value: `null` where the value is no
/// object or has no such key.
pub open spec fn member_of(json: JsonView, key: Seq<char>) -> JsonView {
    match json {
        JsonView::Object(members) => match lookup(members, key) {
            Some(value) => value,
            None => JsonView::Null,
        },
        _ => JsonView::Null,
    }
}

/// The chain that a JSON value names: none for `null`; the number for a whole
/// number of up to 64 bits; for a string, the number that it is in hex after
/// `0x`, and in decimal otherwise. The outer `None` is for any other value.
pub open spec fn chain_id_of(value: JsonView) -> Option<Option<nat>> {
    match value {
        JsonView::Null => Some(None),
        JsonView::Number(text) => match u64_of_text(text) {
            Some(n) => Some(Some(n as nat)),
            None => None,
        },
        JsonView::String(text) => {
            let parsed = match strip_prefix_spec(text) {
                Some(hex) => radix_parse(hex, 16),
                None => radix_parse(text, 10),
            };
            match parsed {
                Some(n) => Some(Some(n)),
                None => None,
            }
        },
        _ => None,
    }
}

/// The chain that typed data names: what stands under `chainId` of what
/// stands under `domain`.
pub open spec fn domain_chain_id(raw: JsonView) -> Option<Option<nat>> {
    chain_id_of(member_of(member_of(raw, "domain"@), "chainId"@))
}

/// Whether typed data may be signed for a node of the given chain: it names
/// no chain, or that one.
pub open spec fn verify_spec(named: Option<nat>, node: nat) -> Result<(), Failure> {
    match named {
        Some(chain_id) => if chain_id == node {
            Ok(())
        } else {
            Err(Failure::InvalidParams)
        },
        None => Ok(()),
    }
}

/// Reads what stands under a key; `None` stands for `null`.
pub fn member<'a>(json: &'a Json, key: &str) -> (r: Option<&'a Json>)
    ensures
        match r {
            Some(value) => member_of(json@, key@) == value@,
            None => member_of(json@, key@) is Null,
        },
{
    match json.as_members() {
        Some(members) => find(members, key),
        None => None,
    }
}

/// Reads the chain that a JSON value names.
pub fn chain_id_from_json(value: &Json) -> (r: Option<Option<Quantity>>)
    ensures
        match r {
            Some(chain_id) => chain_id_of(value@) == Some(number(chain_id)),
            None => chain_id_of(value@) is None,
        },
{
    match value {
        Json::Null => Some(None),
        Json::Number(n) => match n.as_u64() {
            Some(n) => {
                let q = Quantity { hi: 0, lo: n as u128 };
                assert(q@ == n as nat);
                Some(Some(q))
            },
            None => None,
        },
        Json::String(text) => {
            let parsed = match strip_prefix(text.as_str()) {
                Some(hex) => Quantity::from_str_radix(hex, 16),
                None => Quantity::from_str_radix(text.as_str(), 10),
            };
            match parsed {
                Ok(q) => Some(Some(q)),
                Err(_) => None,
            }
        },
        Json::Bool(_) => None,
        Json::Array(_) => None,
        Json::Object(_) => None,
    }
}

impl TypedData {
    /// Typed data from the JSON that a client sent; none where the domain
    /// names a chain in a form that is not understood.
    pub fn from_json(raw: Json) -> (r: Option<TypedData>)
        ensures
            match r {
                Some(data) => data.raw == raw && domain_chain_id(raw@) == Some(
                    number(data.chain_id),
                ),
                None => domain_chain_id(raw@) is None,
            },
    {
        let chain_id = match member(&raw, "domain") {
            Some(domain) => match member(domain, "chainId") {
                Some(value) => chain_id_from_json(value),
                None => Some(None),
            },
            None => Some(None),
        };
        match chain_id {
            Some(chain_id) => Some(TypedData { raw, chain_id }),
            None => None,
        }
    }

    /// Whether the typed data may be signed for a node of the given chain.
    pub fn verify(&self, node: Quantity) -> (r: Result<(), Failure>)
        ensures
            r == verify_spec(number(self.chain_id), node@),
    {
        match self.chain_id {
            Some(chain_id) => {
                proof {
                    if chain_id@ == node@ {
                        chain_id.lemma_view_injective(node);
                    }
                }
                if chain_id == node {
                    Ok(())
                } else {
                    Err(Failure::InvalidParams)
                }
            },
            None => Ok(()),
        }
    }

    /// The JSON of the typed data, as the client sent it.
    pub fn to_json(&self) -> (json: Json)
        ensures
            json@ == self.raw@,
    {
        self.raw.clone()
    }
}

} // verus!

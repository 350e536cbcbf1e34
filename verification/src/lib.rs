//! Signing proxy for an Ethereum JSON-RPC node: the request codec, the
//! transaction filler, the signer stack and the dispatcher.

pub mod account;
pub mod json;
pub mod jsonrpc;
pub mod node;
pub mod serialization;
pub mod signer;

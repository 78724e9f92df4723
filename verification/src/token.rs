use vstd::prelude::*;
use crate::id::Id;

verus! {

/// A token that arrived over a cross-chain hop: its canonical local address
/// together with the provenance trace it was derived from. Two such tokens
/// denote the same asset exactly when their canonical addresses agree.
#[derive(Debug, Clone, PartialEq, Eq, Hash)]
pub struct IbcToken {
    pub address: Id,
    pub trace: Id,
}

/// Canonical identity of a fungible token: native to the local chain, or
/// relayed from another chain.
#[derive(Debug, Clone, PartialEq, Eq, Hash)]
pub enum Token {
    Native(Id),
    Ibc(IbcToken),
}

} // verus!

use vstd::prelude::*;
use crate::ibc::IbcMessage;
use crate::token::Token;
use crate::transfer::Transfer;

verus! {

/// The canonical classification of one ledger transaction. Classification is
/// total: every decoded transfer maps to exactly one of these.
#[derive(Debug, PartialEq, Eq)]
pub enum TransactionKind {
    /// Value moves only between non-privacy-pool accounts, no shielded payload.
    TransparentTransfer(Transfer),
    /// All visible movement is within the privacy pool (or none is visible).
    ShieldedTransfer(Transfer),
    /// Transparent sources fund the privacy pool.
    ShieldingTransfer(Transfer),
    /// The privacy pool pays out to transparent targets.
    UnshieldingTransfer(Transfer),
    /// Any other combination of the decision table's conditions.
    MixedTransfer(Transfer),
    /// A structurally valid but unclassified cross-chain message, passed
    /// through unmodified.
    RelayedMsg(IbcMessage),
    /// An inbound cross-chain transfer that also funds the privacy pool.
    RelayedShieldingTransfer((Token, Transfer)),
    /// An inbound cross-chain transfer between transparent accounts.
    RelayedTransparentTransfer((Token, Transfer)),
    /// A legacy cross-chain transfer paying out of the privacy pool.
    RelayedUnshieldingTransfer((Token, Transfer)),
}

/// Why a cross-chain message could not be classified.
#[derive(Debug, Clone, Copy, PartialEq, Eq)]
pub enum FaultKind {
    /// A fungible-token packet whose payload bytes do not decode.
    UndecodablePacket,
    /// An account identifier inside the packet data is not a well-formed
    /// address.
    MalformedAddress,
    /// The token resolves to a relayed one but no canonical local address
    /// was derived for its trace.
    MissingTokenAddress,
    /// The trace resolves to the local native token but the denomination does
    /// not match the configured native token's identity.
    NativeTokenMismatch,
}

/// A typed, recoverable classification fault, carrying the offending message
/// for dead-lettering.
#[derive(Debug, PartialEq, Eq)]
pub struct ClassificationFault {
    pub kind: FaultKind,
    pub message: IbcMessage,
}

} // verus!

use vstd::prelude::*;
use crate::balance::Amount;
use crate::id::Address;

verus! {

/// Decimal places of the local chain's native token.
pub const NATIVE_DENOM_PLACES: u8 = 6;

/// An amount at a token's precision: the raw integer value and the number of
/// decimal places it is denominated in.
#[derive(Debug, Clone, PartialEq, Eq, Hash)]
pub struct DenominatedAmount {
    pub amount: Amount,
    pub denom: u8,
}

impl DenominatedAmount {
    /// An amount denominated at the native token's precision.
    pub fn native(amount: Amount) -> (r: DenominatedAmount)
        ensures
            r == (DenominatedAmount { amount, denom: NATIVE_DENOM_PLACES }),
    {
        DenominatedAmount { amount, denom: NATIVE_DENOM_PLACES }
    }

    /// Copy this amount; the copy is equal to the original.
    pub fn duplicate(&self) -> (r: DenominatedAmount)
        ensures
            r == *self,
    {
        DenominatedAmount { amount: self.amount.duplicate(), denom: self.denom }
    }
}

/// A holder of a token balance: the owning address and the token's address.
#[derive(Debug, Clone, PartialEq, Eq, Hash)]
pub struct Account {
    pub owner: Address,
    pub token: Address,
}

/// The opaque marker of a privacy-pool payload. Its presence means the
/// transaction carries shielded value; its value is never read here.
#[derive(Debug, Clone, PartialEq, Eq, Hash)]
pub struct MaspTxId(pub Vec<u8>);

/// A decoded ledger transfer: source and target accounts each mapped to a
/// denominated amount, in ledger order, plus the optional privacy-pool marker.
#[derive(Debug, Clone, PartialEq, Eq, Hash)]
pub struct Transfer {
    pub sources: Vec<(Account, DenominatedAmount)>,
    pub targets: Vec<(Account, DenominatedAmount)>,
    pub shielded_section_hash: Option<MaspTxId>,
}

} // verus!

use vstd::prelude::*;

verus! {

/// Identity of an on-chain entity (an account address or a token trace),
/// compared and persisted by its canonical string.
#[derive(Debug, Clone, PartialEq, Eq, Hash)]
pub enum Id {
    /// A canonical account address string.
    Account(String),
    /// A cross-chain token trace string.
    IbcTrace(String),
}

impl Id {
    /// The canonical string of this identity, as it is persisted.
    pub open spec fn text(&self) -> Seq<char> {
        match self {
            Id::Account(s) => s@,
            Id::IbcTrace(s) => s@,
        }
    }

    /// Borrow the canonical string of this identity.
    pub fn as_text(&self) -> (r: &String)
        ensures
            r@ == self.text(),
    {
        match self {
            Id::Account(s) => s,
            Id::IbcTrace(s) => s,
        }
    }

    /// Whether the two identities have the same canonical string.
    pub fn text_eq(&self, other: &Id) -> (r: bool)
        ensures
            r == (self.text() == other.text()),
    {
        let a = self.as_text();
        let b = other.as_text();
        *a == *b
    }

}

/// A ledger address as the classifier reads it: the designated privacy-pool
/// account, the protocol bridge account that stands in for a remote chain,
/// or any other account by its canonical string.
#[derive(Debug, Clone, PartialEq, Eq, Hash)]
pub enum Address {
    /// The designated privacy-pool account.
    Masp,
    /// The protocol-level bridge account for cross-chain transfers.
    Ibc,
    /// Any other account, by canonical address string.
    Account(String),
}

impl Address {
    /// Whether this address is the designated privacy-pool account.
    pub open spec fn spec_is_masp(&self) -> bool {
        matches!(self, Address::Masp)
    }

    /// Whether this address is the designated privacy-pool account.
    pub fn is_masp(&self) -> (r: bool)
        ensures
            r == self.spec_is_masp(),
    {
        matches!(self, Address::Masp)
    }

    /// Copy this address; the copy is equal to the original.
    pub fn duplicate(&self) -> (r: Address)
        ensures
            r == *self,
    {
        match self {
            Address::Masp => Address::Masp,
            Address::Ibc => Address::Ibc,
            Address::Account(s) => Address::Account(s.clone()),
        }
    }
}

} // verus!

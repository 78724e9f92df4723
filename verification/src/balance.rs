use vstd::prelude::*;
use crate::id::Id;

verus! {

/// An unsigned big-integer amount at the token's native precision, carried
/// as its decimal string; this core moves amounts, it never computes on them.
#[derive(Debug, Clone, PartialEq, Eq, Hash)]
pub struct Amount(pub String);

impl Amount {
    /// Copy this amount; the copy is equal to the original.
    pub fn duplicate(&self) -> (r: Amount)
        ensures
            r == *self,
    {
        Amount(self.0.clone())
    }
}

/// One observed balance: the absolute current amount held by `owner` in
/// `token`, not a delta. `(owner, token)` is the logical row key.
#[derive(Debug, Clone, PartialEq, Eq, Hash)]
pub struct Balance {
    pub owner: Id,
    pub token: Id,
    pub amount: Amount,
}

/// A batch of balance observations, in input order.
pub type Balances = Vec<Balance>;

} // verus!

use vstd::prelude::*;

verus! {

/// An immutable value-transfer event between two addresses.
///
/// `amount` (quantity of asset moved) and `usd_price` (unit price at the time
/// of the transfer) are fixed-point integers in units chosen by the caller;
/// the engine's arithmetic is exact over those units. `ts` is seconds since
/// the epoch. `from == to` is tolerated: such a self-transfer counts as both
/// a buy and a sell at the same address.
#[derive(Debug, Clone)]
pub struct Transfer {
    pub ts: u64,
    pub from: String,
    pub to: String,
    pub amount: u32,
    pub usd_price: u32,
}

impl Transfer {
    /// Data-model invariant: the quantity moved and the unit price are positive.
    pub open spec fn valid(self) -> bool {
        self.amount > 0 && self.usd_price > 0
    }

    /// An exact copy, field for field. (A derived `clone` on a type with
    /// `String` fields promises nothing in contracts, so the copy is spelled
    /// out.)
    pub fn duplicate(&self) -> (r: Transfer)
        ensures
            r == *self,
    {
        Transfer {
            ts: self.ts,
            from: self.from.clone(),
            to: self.to.clone(),
            amount: self.amount,
            usd_price: self.usd_price,
        }
    }
}

/// Every transfer in a batch satisfies the data-model invariant.
pub open spec fn valid_batch(ts: Seq<Transfer>) -> bool {
    forall|i: int| 0 <= i < ts.len() ==> ts[i].valid()
}

} // verus!

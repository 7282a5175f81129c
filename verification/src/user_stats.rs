use vstd::prelude::*;

verus! {

/// A volume-weighted average price, kept as the exact fraction
/// `num / den`: `num` is the total value exchanged and `den` the total
/// quantity exchanged in one direction. An address with no operations in
/// that direction has the fraction `0 / 1`, so `num == 0` exactly when
/// there was no such operation. Keeping the fraction unreduced avoids any
/// rounding; callers divide (or reduce) only at the presentation edge.
#[derive(Debug, Clone, Copy, PartialEq, Eq, Structural)]
pub struct AvgPrice {
    pub num: u128,
    pub den: u128,
}

impl AvgPrice {
    /// Whether the average is the zero fallback (no operations in this
    /// direction contributed).
    pub fn is_zero(&self) -> (b: bool)
        ensures
            b == (self.num == 0),
    {
        self.num == 0
    }
}

/// The mathematical content of one [`UserStats`] record: the address as a
/// character sequence and every aggregate as an unbounded integer.
pub ghost struct StatView {
    pub address: Seq<char>,
    pub total_volume: int,
    pub avg_buy_num: int,
    pub avg_buy_den: int,
    pub avg_sell_num: int,
    pub avg_sell_den: int,
    pub max_balance: int,
}

/// A derived, recomputed-on-demand summary of one address's trading
/// activity: total volume moved in both directions, volume-weighted average
/// buy and sell prices, and the highest running balance ever reached
/// (floored at zero). Never persisted or mutated in place.
#[derive(Debug, Clone)]
pub struct UserStats {
    pub address: String,
    pub total_volume: u128,
    pub avg_buy_price: AvgPrice,
    pub avg_sell_price: AvgPrice,
    pub max_balance: u128,
}

impl View for UserStats {
    type V = StatView;

    open spec fn view(&self) -> StatView {
        StatView {
            address: self.address@,
            total_volume: self.total_volume as int,
            avg_buy_num: self.avg_buy_price.num as int,
            avg_buy_den: self.avg_buy_price.den as int,
            avg_sell_num: self.avg_sell_price.num as int,
            avg_sell_den: self.avg_sell_price.den as int,
            max_balance: self.max_balance as int,
        }
    }
}

impl UserStats {
    pub fn new(
        address: String,
        total_volume: u128,
        avg_buy_price: AvgPrice,
        avg_sell_price: AvgPrice,
        max_balance: u128,
    ) -> (r: Self)
        ensures
            r.address == address,
            r.total_volume == total_volume,
            r.avg_buy_price == avg_buy_price,
            r.avg_sell_price == avg_sell_price,
            r.max_balance == max_balance,
    {
        Self { address, total_volume, avg_buy_price, avg_sell_price, max_balance }
    }

    /// An exact copy, field for field. (A derived `clone` on a type with a
    /// `String` field promises nothing in contracts, so the copy is spelled
    /// out.)
    pub fn duplicate(&self) -> (r: Self)
        ensures
            r == *self,
    {
        Self {
            address: self.address.clone(),
            total_volume: self.total_volume,
            avg_buy_price: self.avg_buy_price,
            avg_sell_price: self.avg_sell_price,
            max_balance: self.max_balance,
        }
    }
}

/// The views of a sequence of records, element by element.
pub open spec fn stat_views(s: Seq<UserStats>) -> Seq<StatView> {
    Seq::new(s.len(), |i: int| s[i]@)
}

} // verus!

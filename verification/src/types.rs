//! Plain values that flow between the trading components: modes, orders,
//! account snapshots and points in time.
use vstd::prelude::*;
use crate::calendar::valid_ymd;

verus! {

/// How the system trades.
#[derive(Clone, Copy, Debug, PartialEq, Eq, Structural)]
pub enum TradingMode {
    /// Live trading on a real account.
    Real,
    /// Trading on the broker's paper account.
    Paper,
    /// Replaying stored market data.
    Backtest,
}

/// Which brokerage interface to build.
#[derive(Clone, Copy, Debug, PartialEq, Eq, Structural)]
pub enum ApiType {
    Real,
    Paper,
    Backtest,
}

/// Where account data is read from.
#[derive(Clone, Copy, Debug, PartialEq, Eq, Structural)]
pub enum DataReaderType {
    REAL,
    PAPER,
    DB,
}

/// Buy or sell.
#[derive(Clone, Copy, Debug, PartialEq, Eq, Structural)]
pub enum OrderSide {
    Buy,
    Sell,
}

/// A local date and time of day, to the second.
#[derive(Clone, Copy, Debug, PartialEq, Eq, Structural)]
pub struct Timestamp {
    pub year: i32,
    pub month: u32,
    pub day: u32,
    pub hour: u32,
    pub minute: u32,
    pub second: u32,
}

impl Timestamp {
    /// A real calendar day and a time of day.
    pub open spec fn wf(self) -> bool {
        &&& valid_ymd(self.year as int, self.month as int, self.day as int)
        &&& self.hour < 24
        &&& self.minute < 60
        &&& self.second < 60
    }
}

/// An order to the broker. Prices and fees are whole won.
#[derive(Debug)]
pub struct Order {
    pub date: Timestamp,
    pub stockcode: String,
    pub side: OrderSide,
    pub quantity: u32,
    pub price: u64,
    pub fee: u64,
    pub strategy: String,
}

impl Clone for Order {
    fn clone(&self) -> (r: Self)
        ensures
            r == *self,
    {
        Order {
            date: self.date,
            stockcode: self.stockcode.clone(),
            side: self.side,
            quantity: self.quantity,
            price: self.price,
            fee: self.fee,
            strategy: self.strategy.clone(),
        }
    }
}

impl Order {
    /// The stock code of the order.
    pub fn get_stockcode(&self) -> (r: &str)
        ensures
            r@ == self.stockcode@,
    {
        self.stockcode.as_str()
    }

    /// The number of shares.
    pub fn get_quantity(&self) -> (r: u32)
        ensures
            r == self.quantity,
    {
        self.quantity
    }

    /// The price per share in won.
    pub fn get_price(&self) -> (r: u64)
        ensures
            r == self.price,
    {
        self.price
    }

    /// Whether the order buys.
    pub fn get_buy_or_sell(&self) -> (r: bool)
        ensures
            r == (self.side == OrderSide::Buy),
    {
        match self.side {
            OrderSide::Buy => true,
            OrderSide::Sell => false,
        }
    }
}

/// A snapshot of an account's assets in won.
#[derive(Clone, Copy, Debug)]
pub struct AssetInfo {
    pub date: Timestamp,
    pub asset: u64,
}

impl AssetInfo {
    /// A snapshot taken at `date`.
    pub fn new(date: Timestamp, asset: u64) -> (r: Self)
        ensures
            r.date == date,
            r.asset == asset,
    {
        AssetInfo { date, asset }
    }

    /// The assets in won.
    pub fn get_asset(&self) -> (r: u64)
        ensures
            r == self.asset,
    {
        self.asset
    }
}

/// The shape of an order a strategy means to send: side, size, price and
/// the name of the rule that sends it.
pub struct OrderIntent {
    pub side: OrderSide,
    pub quantity: u32,
    pub price: u64,
    pub strategy: Seq<char>,
}

/// `o` is the order `intent` describes, dated `now`, for stock `stock`, with
/// no fee.
pub open spec fn order_matches(o: Order, now: Timestamp, stock: Seq<char>, intent: OrderIntent) -> bool {
    &&& o.date == now
    &&& o.stockcode@ == stock
    &&& o.side == intent.side
    &&& o.quantity == intent.quantity
    &&& o.price == intent.price
    &&& o.fee == 0
    &&& o.strategy@ == intent.strategy
}

/// Whether `(price - base) / base * 100` is at most `bound / 100` (bound in
/// hundredths of a percent), under floating-point rules when `base` is zero:
/// a positive price over a zero base is +infinity, zero over zero is NaN,
/// and NaN compares false.
pub open spec fn rate_at_most(price: int, base: int, bound: int) -> bool {
    if base > 0 {
        (price - base) * 10000 <= bound * base
    } else {
        false
    }
}

/// Whether `(price - base) / base * 100` is at least `bound / 100`, under
/// the same rules.
pub open spec fn rate_at_least(price: int, base: int, bound: int) -> bool {
    if base > 0 {
        (price - base) * 10000 >= bound * base
    } else {
        price > 0
    }
}

/// Whether the price change from `base` to `price`, in percent, is at most
/// `bound` hundredths of a percent.
pub fn rate_is_at_most(price: u64, base: u64, bound: i128) -> (r: bool)
    requires
        -0x8000_0000_0000_0000 <= bound <= 0x8000_0000_0000_0000,
    ensures
        r == rate_at_most(price as int, base as int, bound as int),
{
    if base > 0 {
        let lhs: i128 = (price as i128 - base as i128) * 10000;
        proof {
            assert((bound as int) * (base as int) <= 0x8000_0000_0000_0000 * 0xffff_ffff_ffff_ffff)
                by (nonlinear_arith)
                requires
                    -0x8000_0000_0000_0000 <= bound <= 0x8000_0000_0000_0000,
                    0 <= base <= 0xffff_ffff_ffff_ffff,
            ;
            assert((bound as int) * (base as int) >= -0x8000_0000_0000_0000 * 0xffff_ffff_ffff_ffff)
                by (nonlinear_arith)
                requires
                    -0x8000_0000_0000_0000 <= bound <= 0x8000_0000_0000_0000,
                    0 <= base <= 0xffff_ffff_ffff_ffff,
            ;
        }
        let rhs: i128 = bound * base as i128;
        lhs <= rhs
    } else {
        false
    }
}

/// Whether the price change from `base` to `price`, in percent, is at least
/// `bound` hundredths of a percent.
pub fn rate_is_at_least(price: u64, base: u64, bound: i128) -> (r: bool)
    requires
        -0x8000_0000_0000_0000 <= bound <= 0x8000_0000_0000_0000,
    ensures
        r == rate_at_least(price as int, base as int, bound as int),
{
    if base > 0 {
        let lhs: i128 = (price as i128 - base as i128) * 10000;
        proof {
            assert((bound as int) * (base as int) <= 0x8000_0000_0000_0000 * 0xffff_ffff_ffff_ffff)
                by (nonlinear_arith)
                requires
                    -0x8000_0000_0000_0000 <= bound <= 0x8000_0000_0000_0000,
                    0 <= base <= 0xffff_ffff_ffff_ffff,
            ;
            assert((bound as int) * (base as int) >= -0x8000_0000_0000_0000 * 0xffff_ffff_ffff_ffff)
                by (nonlinear_arith)
                requires
                    -0x8000_0000_0000_0000 <= bound <= 0x8000_0000_0000_0000,
                    0 <= base <= 0xffff_ffff_ffff_ffff,
            ;
        }
        let rhs: i128 = bound * base as i128;
        lhs >= rhs
    } else {
        price > 0
    }
}

/// How many shares `amount_num / 10000` won buys at `price`, truncated and
/// held in a `u32` as a float-to-integer cast holds it: a non-positive amount
/// buys none, a positive amount at a zero price saturates.
pub open spec fn shares_for(amount_num: int, price: int) -> u32 {
    if amount_num <= 0 {
        0
    } else if price == 0 {
        u32::MAX
    } else {
        let q = amount_num / (10000 * price);
        if q > u32::MAX {
            u32::MAX
        } else {
            q as u32
        }
    }
}

/// The shares that `ratio` hundredths of a percent of `asset` won buy at
/// `price`.
pub open spec fn affordable_quantity(asset: u64, ratio: i64, price: u64) -> u32 {
    shares_for(asset * ratio, price as int)
}

/// The shares that `ratio` hundredths of a percent of `asset` won buy at
/// `price`.
pub fn quantity_for_ratio(asset: u64, ratio: i64, price: u64) -> (r: u32)
    ensures
        r == affordable_quantity(asset, ratio, price),
{
    proof {
        assert((asset as int) * (ratio as int) <= 0xffff_ffff_ffff_ffff * 0x7fff_ffff_ffff_ffff)
            by (nonlinear_arith)
            requires
                -0x8000_0000_0000_0000 <= ratio <= 0x7fff_ffff_ffff_ffff,
                0 <= asset <= 0xffff_ffff_ffff_ffff,
        ;
        assert((asset as int) * (ratio as int) >= -0xffff_ffff_ffff_ffff * 0x8000_0000_0000_0000)
            by (nonlinear_arith)
            requires
                -0x8000_0000_0000_0000 <= ratio <= 0x7fff_ffff_ffff_ffff,
                0 <= asset <= 0xffff_ffff_ffff_ffff,
        ;
    }
    let amount: i128 = asset as i128 * ratio as i128;
    if amount <= 0 {
        return 0;
    }
    if price == 0 {
        return u32::MAX;
    }
    let q: i128 = amount / (10000 * price as i128);
    if q > 4294967295 {
        u32::MAX
    } else {
        q as u32
    }
}

} // verus!

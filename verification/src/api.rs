//! The brokerage interface that every account backend offers, and the
//! backtesting stand-in that answers with fixed values.
use vstd::prelude::*;
use crate::clock::local_now;
use crate::error::{StockrsError, StockrsResult};
use crate::types::{AssetInfo, Order};

verus! {

/// Which backend an interface value is.
#[derive(Clone, Copy, Debug, PartialEq, Eq, Structural)]
pub enum ApiKind {
    /// The Korea Investment & Securities brokerage.
    Korea,
    /// The stored-data stand-in.
    Db,
    /// The backtesting account.
    Backtest,
}

/// The account mode of a brokerage connection.
#[derive(Clone, Copy, Debug, PartialEq, Eq, Structural)]
pub enum ApiMode {
    /// Real trading.
    Real,
    /// Paper trading.
    Paper,
    /// Quotes only, on the real service.
    Info,
}

impl ApiMode {
    /// The label of the mode in messages.
    pub fn mode_name(&self) -> (r: &'static str)
        ensures
            r@ == match self {
                ApiMode::Real => "실거래"@,
                ApiMode::Paper => "모의투자"@,
                ApiMode::Info => "정보용 실전 API"@,
            },
    {
        match self {
            ApiMode::Real => "실거래",
            ApiMode::Paper => "모의투자",
            ApiMode::Info => "정보용 실전 API",
        }
    }
}

/// What the daily fill inquiry reports of one order: the quantity still
/// open and the average fill price in won.
#[derive(Clone, Copy, Debug, PartialEq, Eq, Structural)]
pub struct FillInfo {
    pub rmn_qty: u64,
    pub avg_prvs: u64,
}

/// A brokerage or market-data backend. What each call returns depends on
/// the backend and the outside world; the callers in this library hold for
/// every answer.
pub trait StockApi {
    /// Which backend this value is; it never changes.
    spec fn kind(&self) -> ApiKind;

    /// Which backend this is.
    fn api_kind(&self) -> (k: ApiKind)
        ensures
            k == self.kind(),
    ;

    /// Sends an order; answers the order number.
    fn execute_order(&self, order: &mut Order) -> StockrsResult<String>;

    /// Whether an order has been filled.
    fn check_fill(&self, order_id: &str) -> StockrsResult<bool>;

    /// Cancels an order.
    fn cancel_order(&self, order_id: &str) -> StockrsResult<()>;

    /// The account's assets.
    fn get_balance(&self) -> StockrsResult<AssetInfo>;

    /// The average purchase price of a holding, in won.
    fn get_avg_price(&self, stockcode: &str) -> StockrsResult<u64>;

    /// The latest price of a stock, in won.
    fn get_current_price(&self, stockcode: &str) -> StockrsResult<u64>;

    /// The price of a stock at a `YYYYMMDDHHMM` time, in won.
    fn get_current_price_at_time(&self, stockcode: &str, time_str: &str) -> StockrsResult<u64>;

    /// The account's assets as of a `YYYYMMDDHHMM` time.
    fn calculate_balance_at_time(&self, time_str: &str) -> StockrsResult<AssetInfo>;

    /// The fill record of an order, if the broker has one yet.
    fn get_order_fill_info(&self, order_id: &str) -> StockrsResult<Option<FillInfo>>;
}

/// The stored-data stand-in used while backtesting: every answer is fixed.
pub struct DbApi {}

/// The order number the stand-in gives every order.
pub open spec fn dummy_order_id() -> Seq<char> {
    "DUMMY_ORDER_001"@
}

/// The stand-in's fixed balance in won.
pub const DB_API_BALANCE: u64 = 10_000_000;

/// The stand-in's fixed average purchase price in won.
pub const DB_API_AVG_PRICE: u64 = 50_000;

/// The stand-in's fixed current price in won.
pub const DB_API_CURRENT_PRICE: u64 = 52_000;

impl DbApi {
    /// Builds the stand-in.
    pub fn new() -> (r: StockrsResult<DbApi>)
        ensures
            r is Ok,
    {
        Ok(DbApi {})
    }

    /// The fixed balance, stamped with the local time.
    pub fn balance(&self) -> (r: AssetInfo)
        ensures
            r.asset == DB_API_BALANCE,
            r.date.wf(),
    {
        AssetInfo::new(local_now(), DB_API_BALANCE)
    }
}

fn unsupported(feature: &str) -> (e: StockrsError)
    ensures
        e matches StockrsError::UnsupportedFeature { feature: f, phase } && f@ == feature@ && phase@
            == "stored-data stand-in"@,
{
    StockrsError::UnsupportedFeature {
        feature: feature.to_owned(),
        phase: String::from_str("stored-data stand-in"),
    }
}

impl StockApi for DbApi {
    open spec fn kind(&self) -> ApiKind {
        ApiKind::Db
    }

    fn api_kind(&self) -> (k: ApiKind)
        ensures
            k == ApiKind::Db,
    {
        ApiKind::Db
    }

    fn execute_order(&self, order: &mut Order) -> (r: StockrsResult<String>)
        ensures
            r matches Ok(id) && id@ == dummy_order_id(),
            *final(order) == *old(order),
    {
        let id = String::from_str("DUMMY_ORDER_001");
        proof {
            reveal_strlit("DUMMY_ORDER_001");
        }
        Ok(id)
    }

    fn check_fill(&self, order_id: &str) -> (r: StockrsResult<bool>)
        ensures
            r == Ok::<bool, StockrsError>(true),
    {
        Ok(true)
    }

    fn cancel_order(&self, order_id: &str) -> (r: StockrsResult<()>)
        ensures
            r is Ok,
    {
        Ok(())
    }

    fn get_balance(&self) -> (r: StockrsResult<AssetInfo>)
        ensures
            r matches Ok(a) && a.asset == DB_API_BALANCE && a.date.wf(),
    {
        Ok(self.balance())
    }

    fn get_avg_price(&self, stockcode: &str) -> (r: StockrsResult<u64>)
        ensures
            r == Ok::<u64, StockrsError>(DB_API_AVG_PRICE),
    {
        Ok(DB_API_AVG_PRICE)
    }

    fn get_current_price(&self, stockcode: &str) -> (r: StockrsResult<u64>)
        ensures
            r == Ok::<u64, StockrsError>(DB_API_CURRENT_PRICE),
    {
        Ok(DB_API_CURRENT_PRICE)
    }

    fn get_current_price_at_time(&self, stockcode: &str, time_str: &str) -> (r: StockrsResult<u64>)
        ensures
            r matches Err(StockrsError::UnsupportedFeature { .. }),
    {
        Err(unsupported("price at a given time"))
    }

    fn calculate_balance_at_time(&self, time_str: &str) -> (r: StockrsResult<AssetInfo>)
        ensures
            r matches Err(StockrsError::UnsupportedFeature { .. }),
    {
        Err(unsupported("balance at a given time"))
    }

    fn get_order_fill_info(&self, order_id: &str) -> (r: StockrsResult<Option<FillInfo>>)
        ensures
            r matches Err(StockrsError::UnsupportedFeature { .. }),
    {
        Err(unsupported("order fill inquiry"))
    }
}

} // verus!

//! The bookkeeping behind the daily overview: which balance to read in
//! which mode, and how a day's high, low, profit and return follow from the
//! balances read.
use vstd::prelude::*;
use std::rc::Rc;
use crate::api::{ApiKind, StockApi};
use crate::error::{StockrsError, StockrsResult};
use crate::types::AssetInfo;

verus! {

/// The result of a store operation.
pub struct DBResult<T>(pub Result<T, StockrsError>);

impl<T> DBResult<T> {
    /// A success.
    pub fn ok(value: T) -> (r: Self)
        ensures
            r.0 == Ok::<T, StockrsError>(value),
    {
        DBResult(Ok(value))
    }

    /// A failure.
    pub fn err(error: StockrsError) -> (r: Self)
        ensures
            r.0 == Err::<T, StockrsError>(error),
    {
        DBResult(Err(error))
    }

    /// The result inside.
    pub fn into_result(self) -> (r: Result<T, StockrsError>)
        ensures
            r == self.0,
    {
        self.0
    }

    /// The result inside, borrowed.
    pub fn as_result(&self) -> (r: &Result<T, StockrsError>)
        ensures
            *r == self.0,
    {
        &self.0
    }

    /// Wraps a result.
    pub fn from_result(result: StockrsResult<T>) -> (r: Self)
        ensures
            r.0 == result,
    {
        DBResult(result)
    }
}

/// Whether the balance is read as of a replayed time.
#[derive(Debug)]
pub struct BacktestMode {
    pub is_backtest: bool,
    pub current_time: Option<String>,
}

impl BacktestMode {
    /// Live trading (real or paper).
    pub fn normal() -> (r: Self)
        ensures
            !r.is_backtest,
            r.current_time is None,
    {
        BacktestMode { is_backtest: false, current_time: None }
    }

    /// Backtesting at `current_time`.
    pub fn backtest(current_time: String) -> (r: Self)
        ensures
            r.is_backtest,
            r.current_time == Some(current_time),
    {
        BacktestMode { is_backtest: true, current_time: Some(current_time) }
    }

    /// The replayed time, if any.
    pub fn time_str(&self) -> (r: Option<&str>)
        ensures
            match self.current_time {
                Some(t) => r matches Some(s) && s@ == t@,
                None => r is None,
            },
    {
        match &self.current_time {
            Some(t) => Some(t.as_str()),
            None => None,
        }
    }

    /// Backtesting at the given time, or live trading when there is none.
    pub fn for_time(current_time: Option<String>) -> (r: Self)
        ensures
            r.is_backtest == current_time is Some,
            r.current_time == current_time,
    {
        match current_time {
            Some(time) => BacktestMode::backtest(time),
            None => BacktestMode::normal(),
        }
    }
}

/// Which balance inquiry an interface answers for a replayed time.
#[derive(Clone, Copy, Debug, PartialEq, Eq, Structural)]
pub enum BalanceCall {
    /// The backtesting account computes the balance as of the time.
    AtTime,
    /// Any other interface gives its current balance.
    Current,
}

/// The balance inquiry for an interface of kind `kind`: a backtesting
/// account is asked for the balance at the time, any other for its current
/// balance.
pub fn balance_call(kind: ApiKind) -> (r: BalanceCall)
    ensures
        r == (if kind == ApiKind::Backtest {
            BalanceCall::AtTime
        } else {
            BalanceCall::Current
        }),
{
    if kind == ApiKind::Backtest {
        BalanceCall::AtTime
    } else {
        BalanceCall::Current
    }
}

/// Reads balances the way the interface's kind calls for.
pub struct ApiTypeDetector<A: StockApi> {
    api: Rc<A>,
}

impl<A: StockApi> ApiTypeDetector<A> {
    /// The detector for `api`.
    pub fn new(api: Rc<A>) -> (r: Self)
        ensures
            r.api_spec() == api,
    {
        ApiTypeDetector { api }
    }

    /// The interface read.
    pub closed spec fn api_spec(&self) -> Rc<A> {
        self.api
    }

    /// The balance as of `time`: a backtesting account computes it for that
    /// time; any other interface gives its current balance.
    pub fn calculate_balance_in_backtest(&self, time: &str) -> (r: StockrsResult<AssetInfo>)
        ensures
            self.api_spec().kind() == ApiKind::Backtest ==> call_ensures(
                A::calculate_balance_at_time,
                (&*self.api_spec(), time),
                r,
            ),
            self.api_spec().kind() != ApiKind::Backtest ==> call_ensures(
                A::get_balance,
                (&*self.api_spec(),),
                r,
            ),
    {
        match balance_call(self.api.api_kind()) {
            BalanceCall::AtTime => self.api.calculate_balance_at_time(time),
            BalanceCall::Current => self.api.get_balance(),
        }
    }
}

/// The balance the overview records: as of the replayed time when
/// backtesting at a known time, else the interface's current balance.
pub fn get_balance_with_mode<A: StockApi>(api: &Rc<A>, detector: &ApiTypeDetector<A>, mode: &BacktestMode) -> (r:
    DBResult<AssetInfo>)
    ensures
        mode.is_backtest && mode.current_time is Some ==> exists|time: &str|
            #![trigger time@]
            time@ == mode.current_time.unwrap()@ && (if detector.api_spec().kind() == ApiKind::Backtest {
                call_ensures(A::calculate_balance_at_time, (&*detector.api_spec(), time), r.0)
            } else {
                call_ensures(A::get_balance, (&*detector.api_spec(),), r.0)
            }),
        !(mode.is_backtest && mode.current_time is Some) ==> call_ensures(
            A::get_balance,
            (&**api,),
            r.0,
        ),
{
    if mode.is_backtest {
        if let Some(time) = mode.time_str() {
            DBResult::from_result(detector.calculate_balance_in_backtest(time))
        } else {
            DBResult::from_result(api.get_balance())
        }
    } else {
        DBResult::from_result(api.get_balance())
    }
}

/// The day's high and low after a balance of `asset` won is seen.
pub open spec fn high_low_after(high: u64, low: u64, asset: u64) -> (u64, u64) {
    (if asset > high { asset } else { high }, if asset < low { asset } else { low })
}

/// The day's high and low after a balance of `asset` won is seen: the high
/// rises to it, the low falls to it.
pub fn update_high_low(high: u64, low: u64, asset: u64) -> (r: (u64, u64))
    ensures
        r == high_low_after(high, low, asset),
        r.0 >= high,
        r.0 >= asset,
        r.1 <= low,
        r.1 <= asset || r.1 == low,
{
    let new_high = if asset > high {
        asset
    } else {
        high
    };
    let new_low = if asset < low {
        asset
    } else {
        low
    };
    (new_high, new_low)
}

/// A day's result: the profit in won and the return in percent as the
/// quotient `roi_numer / roi_denom`.
#[derive(Clone, Copy, Debug, PartialEq, Eq, Structural)]
pub struct DailyResult {
    pub profit: i128,
    pub roi_numer: i128,
    pub roi_denom: u64,
}

/// The day's result from the opening and closing balances.
pub open spec fn daily_result_spec(open: u64, close: u64) -> DailyResult {
    DailyResult {
        profit: (close - open) as i128,
        roi_numer: ((close - open) * 100) as i128,
        roi_denom: open,
    }
}

/// The day's profit `close - open` and return `(close - open) / open * 100`.
pub fn daily_result(open: u64, close: u64) -> (r: DailyResult)
    ensures
        r == daily_result_spec(open, close),
{
    let profit: i128 = close as i128 - open as i128;
    DailyResult { profit, roi_numer: profit * 100, roi_denom: open }
}

/// How the day's overview row changes when a balance is seen.
#[derive(Clone, Copy, Debug, PartialEq, Eq, Structural)]
pub enum OverviewWrite {
    /// No row yet: open it with the balance as open, high and low.
    Insert { open: u64, high: u64, low: u64 },
    /// A row with a high and a low: move them to the balance.
    Update { high: u64, low: u64 },
}

/// How the day's overview row changes when a balance of `asset` won is
/// seen, given the high and low of the row if there is one.
pub fn overview_on_balance(existing: Option<(u64, u64)>, asset: u64) -> (r: OverviewWrite)
    ensures
        r == match existing {
            None => OverviewWrite::Insert { open: asset, high: asset, low: asset },
            Some((high, low)) => OverviewWrite::Update {
                high: high_low_after(high, low, asset).0,
                low: high_low_after(high, low, asset).1,
            },
        },
{
    match existing {
        None => OverviewWrite::Insert { open: asset, high: asset, low: asset },
        Some((high, low)) => {
            let (h, l) = update_high_low(high, low, asset);
            OverviewWrite::Update { high: h, low: l }
        },
    }
}

/// The day's result when it closes at `close` won: measured from the
/// recorded opening balance, or from the closing one when none was
/// recorded.
pub fn closing_result(open: Option<u64>, close: u64) -> (r: DailyResult)
    ensures
        r == daily_result_spec(
            match open {
                Some(o) => o,
                None => close,
            },
            close,
        ),
{
    let base = match open {
        Some(o) => o,
        None => close,
    };
    daily_result(base, close)
}

} // verus!

//! The bundle of brokerage interfaces handed to a strategy, the strategy
//! interface itself, and the strategies.
use vstd::prelude::*;
use std::rc::Rc;
use crate::api::{ApiKind, StockApi};
use crate::error::{StockrsError, StockrsResult};
use crate::types::{AssetInfo, Order, Timestamp, TradingMode};

pub mod dongwon;
pub mod dummy;
pub mod joonwoo;
pub mod minseop;

verus! {

/// The interfaces a strategy may consult, and the mode that decides which
/// of them answers.
pub struct ApiBundle<A: StockApi> {
    /// The current mode (real, paper or backtest).
    pub current_mode: TradingMode,
    pub real_api: Rc<A>,
    pub paper_api: Rc<A>,
    pub info_api: Rc<A>,
    pub db_api: Rc<A>,
    /// The backtesting account, where there is one.
    pub backtest_api: Option<Rc<A>>,
    /// The stored-data interface, where there is one.
    pub db_api_direct: Option<Rc<A>>,
}

impl<A: StockApi> ApiBundle<A> {
    /// A bundle without backtesting interfaces.
    pub fn new(
        current_mode: TradingMode,
        real_api: Rc<A>,
        paper_api: Rc<A>,
        info_api: Rc<A>,
        db_api: Rc<A>,
    ) -> (r: Self)
        ensures
            r.current_mode == current_mode,
            r.real_api == real_api,
            r.paper_api == paper_api,
            r.info_api == info_api,
            r.db_api == db_api,
            r.backtest_api is None,
            r.db_api_direct is None,
    {
        ApiBundle {
            current_mode,
            real_api,
            paper_api,
            info_api,
            db_api,
            backtest_api: None,
            db_api_direct: None,
        }
    }

    /// A bundle with the backtesting account and the stored-data interface.
    pub fn new_with_backtest_apis(
        current_mode: TradingMode,
        real_api: Rc<A>,
        paper_api: Rc<A>,
        info_api: Rc<A>,
        db_api: Rc<A>,
        backtest_api: Rc<A>,
        db_api_direct: Rc<A>,
    ) -> (r: Self)
        ensures
            r.current_mode == current_mode,
            r.real_api == real_api,
            r.paper_api == paper_api,
            r.info_api == info_api,
            r.db_api == db_api,
            r.backtest_api == Some(backtest_api),
            r.db_api_direct == Some(db_api_direct),
    {
        ApiBundle {
            current_mode,
            real_api,
            paper_api,
            info_api,
            db_api,
            backtest_api: Some(backtest_api),
            db_api_direct: Some(db_api_direct),
        }
    }

    /// The backtesting account, if the bundle holds one and it is one.
    pub fn get_backtest_api(&self) -> (r: Option<&Rc<A>>)
        ensures
            r is Some <==> (self.backtest_api matches Some(api) && api.kind() == ApiKind::Backtest),
            r matches Some(api) ==> self.backtest_api == Some(*api),
    {
        match &self.backtest_api {
            Some(api) => {
                if api.api_kind() == ApiKind::Backtest {
                    Some(api)
                } else {
                    None
                }
            },
            None => None,
        }
    }

    /// The stored-data interface, if `db_api` is one.
    pub fn get_db_api(&self) -> (r: Option<&Rc<A>>)
        ensures
            r is Some <==> self.db_api.kind() == ApiKind::Db,
            r matches Some(api) ==> *api == self.db_api,
    {
        if self.db_api.api_kind() == ApiKind::Db {
            Some(&self.db_api)
        } else {
            None
        }
    }

    /// The account balance, asked of the interface of the current mode.
    pub fn get_balance(&self) -> (r: StockrsResult<AssetInfo>)
        ensures
            self.current_mode == TradingMode::Backtest && !(self.backtest_api matches Some(api)
                && api.kind() == ApiKind::Backtest) ==> r matches Err(
                StockrsError::BalanceInquiry { .. },
            ),
            self.current_mode == TradingMode::Backtest && (self.backtest_api matches Some(api)
                && api.kind() == ApiKind::Backtest) ==> call_ensures(
                A::get_balance,
                (&*self.backtest_api.unwrap(),),
                r,
            ),
            self.current_mode == TradingMode::Real ==> call_ensures(
                A::get_balance,
                (&*self.real_api,),
                r,
            ),
            self.current_mode == TradingMode::Paper ==> call_ensures(
                A::get_balance,
                (&*self.paper_api,),
                r,
            ),
    {
        match self.current_mode {
            TradingMode::Backtest => {
                if let Some(backtest_api) = self.get_backtest_api() {
                    backtest_api.get_balance()
                } else {
                    Err(
                        StockrsError::BalanceInquiry {
                            reason: String::from_str("백테스팅 모드에서 BacktestApi를 찾을 수 없습니다."),
                        },
                    )
                }
            },
            TradingMode::Real => self.real_api.get_balance(),
            TradingMode::Paper => self.paper_api.get_balance(),
        }
    }

    /// The current mode.
    pub fn get_current_mode(&self) -> (r: &TradingMode)
        ensures
            *r == self.current_mode,
    {
        &self.current_mode
    }

    /// Whether the bundle is in backtest mode.
    pub fn is_backtest_mode(&self) -> (r: bool)
        ensures
            r == (self.current_mode == TradingMode::Backtest),
    {
        matches!(self.current_mode, TradingMode::Backtest)
    }

    /// Whether the bundle is in real mode.
    pub fn is_real_mode(&self) -> (r: bool)
        ensures
            r == (self.current_mode == TradingMode::Real),
    {
        matches!(self.current_mode, TradingMode::Real)
    }

    /// Whether the bundle is in paper mode.
    pub fn is_paper_mode(&self) -> (r: bool)
        ensures
            r == (self.current_mode == TradingMode::Paper),
    {
        matches!(self.current_mode, TradingMode::Paper)
    }

    /// The interface of the current mode: in backtest mode the backtesting
    /// account where there is one, else the stored-data interface.
    pub fn get_current_api(&self) -> (r: &Rc<A>)
        ensures
            *r == match self.current_mode {
                TradingMode::Backtest => match self.backtest_api {
                    Some(api) => api,
                    None => self.db_api,
                },
                TradingMode::Real => self.real_api,
                TradingMode::Paper => self.paper_api,
            },
    {
        match self.current_mode {
            TradingMode::Backtest => {
                match &self.backtest_api {
                    Some(api) => api,
                    None => &self.db_api,
                }
            },
            TradingMode::Real => &self.real_api,
            TradingMode::Paper => &self.paper_api,
        }
    }

    /// The price of a stock now: in backtest mode, at `backtest_time`
    /// (`YYYYMMDDHHMM`); otherwise from the live interface of the mode.
    pub fn get_current_price(&self, stockcode: &str, backtest_time: &str) -> (r: StockrsResult<u64>)
        ensures
            self.current_mode == TradingMode::Backtest && self.db_api.kind() != ApiKind::Db
                ==> r matches Err(StockrsError::BalanceInquiry { .. }),
            self.current_mode == TradingMode::Backtest && self.db_api.kind() == ApiKind::Db
                ==> call_ensures(
                A::get_current_price_at_time,
                (&*self.db_api, stockcode, backtest_time),
                r,
            ),
            self.current_mode == TradingMode::Real ==> call_ensures(
                A::get_current_price,
                (&*self.real_api, stockcode),
                r,
            ),
            self.current_mode == TradingMode::Paper ==> call_ensures(
                A::get_current_price,
                (&*self.paper_api, stockcode),
                r,
            ),
    {
        match self.current_mode {
            TradingMode::Backtest => self.get_current_price_at_time(stockcode, backtest_time),
            TradingMode::Real => self.real_api.get_current_price(stockcode),
            TradingMode::Paper => self.paper_api.get_current_price(stockcode),
        }
    }

    /// The price of a stock at a `YYYYMMDDHHMM` time; only in backtest mode.
    pub fn get_current_price_at_time(&self, stockcode: &str, time_str: &str) -> (r: StockrsResult<u64>)
        ensures
            self.current_mode != TradingMode::Backtest ==> (r matches Err(
                StockrsError::UnsupportedFeature { feature, .. },
            ) && feature@ == "시간 기반 현재가 조회"@),
            self.current_mode == TradingMode::Backtest && self.db_api.kind() != ApiKind::Db
                ==> r matches Err(StockrsError::BalanceInquiry { .. }),
            self.current_mode == TradingMode::Backtest && self.db_api.kind() == ApiKind::Db
                ==> call_ensures(
                A::get_current_price_at_time,
                (&*self.db_api, stockcode, time_str),
                r,
            ),
    {
        if !self.is_backtest_mode() {
            return Err(
                StockrsError::UnsupportedFeature {
                    feature: String::from_str("시간 기반 현재가 조회"),
                    phase: String::from_str("실시간/모의투자 모드"),
                },
            );
        }
        if let Some(db_api) = self.get_db_api() {
            db_api.get_current_price_at_time(stockcode, time_str)
        } else {
            Err(
                StockrsError::BalanceInquiry {
                    reason: String::from_str("백테스팅 모드에서 DbApi를 찾을 수 없습니다."),
                },
            )
        }
    }
}

/// `ans` is an answer the bundle gives to an inquiry about the price of the
/// stock `code` now, the minute being `time` (`YYYYMMDDHHMM`) when
/// backtesting.
pub open spec fn price_answer<A: StockApi>(
    apis: &ApiBundle<A>,
    code: Seq<char>,
    time: Seq<char>,
    ans: StockrsResult<u64>,
) -> bool {
    exists|s: &str, t: &str|
        #![trigger s@, t@]
        s@ == code && t@ == time && call_ensures(ApiBundle::<A>::get_current_price, (apis, s, t), ans)
}

/// `ans` is an answer the bundle gives to an inquiry about the price of the
/// stock `code` at the minute `time` (`YYYYMMDDHHMM`).
pub open spec fn price_at_time_answer<A: StockApi>(
    apis: &ApiBundle<A>,
    code: Seq<char>,
    time: Seq<char>,
    ans: StockrsResult<u64>,
) -> bool {
    exists|s: &str, t: &str|
        #![trigger s@, t@]
        s@ == code && t@ == time && call_ensures(
            ApiBundle::<A>::get_current_price_at_time,
            (apis, s, t),
            ans,
        )
}

/// `ans` is an answer the bundle gives to an inquiry about the balance of
/// the account of its current mode.
pub open spec fn balance_answer<A: StockApi>(apis: &ApiBundle<A>, ans: StockrsResult<AssetInfo>) -> bool {
    call_ensures(ApiBundle::<A>::get_balance, (apis,), ans)
}

/// `ans` is an answer the classifier of `ctx` gives, in the state `ctx`,
/// when asked for its top stock of the day `day` (`YYYYMMDD`).
pub open spec fn classifier_answer<C: MarketContext>(
    ctx: C,
    day: Seq<char>,
    ans: StockrsResult<Option<String>>,
) -> bool {
    exists|m: &mut C, s: &str|
        #![trigger call_ensures(C::predict_top_stock, (m, s), ans)]
        *m == ctx && s@ == day && call_ensures(C::predict_top_stock, (m, s), ans)
}

/// The classifier of `ctx`, asked in the state `ctx` for its top stock of
/// the day `day` (`YYYYMMDD`), can answer with the stock `code`.
pub open spec fn classifier_picked<C: MarketContext>(ctx: C, day: Seq<char>, code: Seq<char>) -> bool {
    exists|p: String|
        #![trigger p@]
        p@ == code && classifier_answer(ctx, day, Ok::<Option<String>, StockrsError>(Some(p)))
}

/// `ans` is an answer the regression model of `ctx` gives, in the state
/// `ctx`, when asked for its top stock of the day `day` (`YYYYMMDD`).
pub open spec fn regression_answer<C: MarketContext>(
    ctx: C,
    day: Seq<char>,
    ans: StockrsResult<Option<(String, bool)>>,
) -> bool {
    exists|m: &mut C, s: &str|
        #![trigger call_ensures(C::predict_top_stock_regression, (m, s), ans)]
        *m == ctx && s@ == day && call_ensures(C::predict_top_stock_regression, (m, s), ans)
}

/// The regression model of `ctx`, asked in the state `ctx` for its top
/// stock of the day `day` (`YYYYMMDD`), can answer with the stock `code`
/// and a prediction of at least zero.
pub open spec fn regression_picked<C: MarketContext>(ctx: C, day: Seq<char>, code: Seq<char>) -> bool {
    exists|p: String|
        #![trigger p@]
        p@ == code && regression_answer(
            ctx,
            day,
            Ok::<Option<(String, bool)>, StockrsError>(Some((p, true))),
        )
}

/// What a strategy asks of the world besides the brokerage interfaces: the
/// prediction model's picks and one setting.
pub trait MarketContext {
    /// The stock the classifier ranks first for the day `date`
    /// (`YYYYMMDD`), if any.
    fn predict_top_stock(&mut self, date: &str) -> StockrsResult<Option<String>>;

    /// The stock the regression model ranks first for the day `date`, with
    /// whether its predicted value is at least zero.
    fn predict_top_stock_regression(&mut self, date: &str) -> StockrsResult<Option<(String, bool)>>;

    /// Whether, in backtest mode, a price lookup that fails for want of
    /// minute data skips the tick instead of failing.
    fn skip_missing_price_as_unavailable(&self) -> bool;
}

/// A trading strategy: called at the start, at every tick, at the end and
/// when a new trading day begins.
pub trait Model {
    /// Called once before the first tick.
    fn on_start(&mut self) -> StockrsResult<()>;

    /// Called at every tick at local time `now`; `special_offset` is the
    /// shift in minutes of today's schedule when today is a special day.
    /// Answers the order to send, if any.
    fn on_event<A: StockApi, C: MarketContext>(
        &mut self,
        apis: &ApiBundle<A>,
        ctx: &mut C,
        now: Timestamp,
        special_offset: Option<i32>,
    ) -> StockrsResult<Option<Order>>
        requires
            now.wf(),
    ;

    /// Called once after the last tick.
    fn on_end(&mut self) -> StockrsResult<()>;

    /// Puts the strategy back to its start-of-day state.
    fn reset_for_new_day(&mut self) -> StockrsResult<()>;
}

} // verus!

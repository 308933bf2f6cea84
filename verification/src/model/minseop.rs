//! The minseop strategy: at the configured entry time it buys the stock the
//! regression model ranks first, if the model's value for it is not
//! negative, with a fixed amount or else a share of the account; it sells
//! everything on a stop loss or a take profit, and from the close-out time
//! on.
//!
//! Percentages are held in hundredths of a percent; prices and amounts in
//! won.
use vstd::prelude::*;
use crate::api::StockApi;
use crate::clock::{
    format_ymd, format_ymdhm, parse_hm_spec, scheduled_hm_spec, scheduled_time, ymd_text,
    ymdhm_text,
};
use crate::error::{StockrsError, StockrsResult};
use crate::model::{
    balance_answer, price_answer, regression_answer, regression_picked, ApiBundle, MarketContext,
    Model,
};
use crate::text::{chars_of, contains_chars, contains_spec};
use crate::types::{
    affordable_quantity, order_matches, quantity_for_ratio, rate_at_least, rate_at_most,
    rate_is_at_least, rate_is_at_most, shares_for, AssetInfo, Order, OrderIntent, OrderSide,
    Timestamp,
};

verus! {

/// Where a minseop position stands.
#[derive(Clone, Copy, Debug, PartialEq, Eq, Structural)]
pub enum TradingState {
    /// Waiting for the entry time.
    WaitingForEntry,
    /// Holding the position.
    Holding,
    /// Everything sold.
    Closed,
}

/// The configurable part of the strategy.
pub struct MinseopSettings {
    /// Loss that sells everything, in hundredths of a percent.
    pub stop_loss_pct: i64,
    /// Gain that sells everything, in hundredths of a percent.
    pub take_profit_pct: i64,
    /// Entry time, `HH:MM:SS`.
    pub entry_time: String,
    /// Close-out time, `HH:MM:SS`.
    pub force_close_time: String,
    /// Share of the assets spent at entry when the fixed amount does not
    /// apply, in hundredths of a percent.
    pub entry_asset_ratio: i64,
    /// Amount spent at entry, in won; zero or less turns it off.
    pub fixed_entry_amount: i64,
}

/// The minseop strategy's state.
pub struct MinseopModel {
    current_stock: Option<String>,
    position_size: u32,
    remaining_size: u32,
    entry_price: u64,
    state: TradingState,
    stop_loss_pct: i64,
    take_profit_pct: i64,
    entry_time_str: String,
    force_close_time_str: String,
    entry_asset_ratio: i64,
    fixed_entry_amount: i64,
}

/// The strategy's state as values.
pub struct MinseopView {
    pub current_stock: Option<Seq<char>>,
    pub position_size: u32,
    pub remaining_size: u32,
    pub entry_price: u64,
    pub state: TradingState,
    pub stop_loss_pct: i64,
    pub take_profit_pct: i64,
    pub entry_time_str: Seq<char>,
    pub force_close_time_str: Seq<char>,
    pub entry_asset_ratio: i64,
    pub fixed_entry_amount: i64,
}

impl MinseopView {
    /// The bookkeeping every step keeps.
    pub open spec fn wf(self) -> bool {
        &&& self.remaining_size <= self.position_size
        &&& self.remaining_size > 0 ==> self.current_stock is Some
        &&& self.state == TradingState::Holding ==> self.current_stock is Some
        &&& self.state == TradingState::Closed ==> self.remaining_size == 0
    }

    /// The same configured values.
    pub open spec fn same_settings(self, other: MinseopView) -> bool {
        &&& self.stop_loss_pct == other.stop_loss_pct
        &&& self.take_profit_pct == other.take_profit_pct
        &&& self.entry_time_str == other.entry_time_str
        &&& self.force_close_time_str == other.force_close_time_str
        &&& self.entry_asset_ratio == other.entry_asset_ratio
        &&& self.fixed_entry_amount == other.fixed_entry_amount
    }

    /// A fresh trading day.
    pub open spec fn is_fresh(self) -> bool {
        &&& self.current_stock is None
        &&& self.position_size == 0
        &&& self.remaining_size == 0
        &&& self.entry_price == 0
        &&& self.state == TradingState::WaitingForEntry
    }
}

/// What the strategy does at a tick, by the time of day.
#[derive(Clone, Copy, Debug, PartialEq, Eq, Structural)]
pub enum MinseopPhase {
    /// The entry minute.
    Entry,
    /// The close-out minute or later.
    ForceClose,
    /// Between entry and close-out: watch the exits.
    CheckExit,
    /// Before the entry time, or a schedule that does not read.
    Idle,
}

/// The phase of a tick at `h:m`, given the day's entry and close-out times.
pub open spec fn minseop_phase_for(h: u32, m: u32, entry: (u32, u32), close: (u32, u32)) -> MinseopPhase {
    if h == entry.0 && m == entry.1 {
        MinseopPhase::Entry
    } else if h > close.0 || (h == close.0 && m >= close.1) {
        MinseopPhase::ForceClose
    } else if (h > entry.0 || (h == entry.0 && m >= entry.1)) && (h < close.0 || (h == close.0 && m
        <= close.1)) {
        MinseopPhase::CheckExit
    } else {
        MinseopPhase::Idle
    }
}

/// The phase of the tick at `now`; the entry time shifts on special days,
/// the close-out time does not.
pub open spec fn minseop_phase(s: MinseopView, now: Timestamp, special_offset: Option<i32>) -> MinseopPhase {
    match (scheduled_hm_spec(s.entry_time_str, special_offset), parse_hm_spec(s.force_close_time_str)) {
        (Some(entry), Some(close)) => minseop_phase_for(now.hour, now.minute, entry, close),
        _ => MinseopPhase::Idle,
    }
}

/// The shares bought at entry: the fixed amount's shares when the amount is
/// on, buys at least one share and is covered by the assets; otherwise the
/// configured share of the assets.
pub open spec fn minseop_entry_quantity(s: MinseopView, price: u64, asset: u64) -> u32 {
    let by_ratio = affordable_quantity(asset, s.entry_asset_ratio, price);
    if s.fixed_entry_amount > 0 {
        let by_fixed = shares_for(s.fixed_entry_amount * 10000, price as int);
        if by_fixed > 0 && s.fixed_entry_amount <= asset {
            by_fixed
        } else {
            by_ratio
        }
    } else {
        by_ratio
    }
}

/// The state after buying `qty` shares of `stock` at `price`.
pub open spec fn minseop_entered(s: MinseopView, stock: Seq<char>, price: u64, qty: u32) -> MinseopView {
    MinseopView {
        current_stock: Some(stock),
        position_size: qty,
        remaining_size: qty,
        entry_price: price,
        state: TradingState::Holding,
        ..s
    }
}

/// The state after the position is closed.
pub open spec fn minseop_closed(s: MinseopView) -> MinseopView {
    MinseopView { remaining_size: 0, state: TradingState::Closed, ..s }
}

/// What the exit rules do to a held position at `price`.
pub open spec fn minseop_exit_spec(s: MinseopView, price: u64) -> Option<Seq<char>> {
    if rate_at_most(price as int, s.entry_price as int, -s.stop_loss_pct) {
        Some("stop_loss"@)
    } else if rate_at_least(price as int, s.entry_price as int, s.take_profit_pct as int) {
        Some("take_profit"@)
    } else {
        None
    }
}

/// The stock to enter from the regression model's pick: the picked stock
/// when its predicted value is not negative, none otherwise.
pub fn entry_pick(pick: Option<(String, bool)>) -> (r: Option<String>)
    ensures
        r == match pick {
            Some((stock, true)) => Some(stock),
            _ => None::<String>,
        },
{
    match pick {
        Some((stock, value_not_negative)) => {
            if value_not_negative {
                Some(stock)
            } else {
                None
            }
        },
        None => None,
    }
}

/// Whether any text of an error contains `phrase`.
pub open spec fn error_mentions(e: StockrsError, phrase: Seq<char>) -> bool {
    match e {
        StockrsError::General { message } => contains_spec(message@, phrase),
        StockrsError::BalanceInquiry { reason } => contains_spec(reason@, phrase),
        StockrsError::UnsupportedFeature { feature, phase } => contains_spec(feature@, phrase)
            || contains_spec(phase@, phrase),
        StockrsError::Parsing { data_type, reason } => contains_spec(data_type@, phrase)
            || contains_spec(reason@, phrase),
        StockrsError::Validation { message } => contains_spec(message@, phrase),
        StockrsError::Prediction { message } => contains_spec(message@, phrase),
        StockrsError::Api { message } => contains_spec(message@, phrase),
    }
}

fn text_contains(text: &String, phrase: &Vec<char>) -> (r: bool)
    ensures
        r == contains_spec(text@, phrase@),
{
    let cs = chars_of(text.as_str());
    contains_chars(cs.as_slice(), phrase.as_slice())
}

/// Whether any text of an error contains `phrase`.
pub fn error_mentions_phrase(e: &StockrsError, phrase: &str) -> (r: bool)
    ensures
        r == error_mentions(*e, phrase@),
{
    let p = chars_of(phrase);
    match e {
        StockrsError::General { message } => text_contains(message, &p),
        StockrsError::BalanceInquiry { reason } => text_contains(reason, &p),
        StockrsError::UnsupportedFeature { feature, phase } => text_contains(feature, &p)
            || text_contains(phase, &p),
        StockrsError::Parsing { data_type, reason } => text_contains(data_type, &p)
            || text_contains(reason, &p),
        StockrsError::Validation { message } => text_contains(message, &p),
        StockrsError::Prediction { message } => text_contains(message, &p),
        StockrsError::Api { message } => text_contains(message, &p),
    }
}

/// The effect of one tick on the position.
pub open spec fn minseop_tick_effect(old: MinseopView, new: MinseopView, r: Option<Order>, now: Timestamp) -> bool {
    &&& new.same_settings(old)
    &&& match r {
        None => old.current_stock == new.current_stock && old.position_size == new.position_size
            && old.remaining_size == new.remaining_size,
        Some(o) => {
            &&& o.date == now
            &&& o.fee == 0
            &&& match o.side {
                OrderSide::Buy => {
                    &&& old.state == TradingState::WaitingForEntry
                    &&& new.state == TradingState::Holding
                    &&& o.quantity > 0
                    &&& new.position_size == o.quantity
                    &&& new.remaining_size == o.quantity
                    &&& new.entry_price == o.price
                    &&& new.current_stock == Some(o.stockcode@)
                },
                OrderSide::Sell => {
                    &&& old.state == TradingState::Holding
                    &&& new.state == TradingState::Closed
                    &&& old.current_stock == Some(o.stockcode@)
                    &&& new.current_stock == old.current_stock
                    &&& new.position_size == old.position_size
                    &&& o.quantity == old.remaining_size
                    &&& new.remaining_size == 0
                },
            }
        },
    }
}

impl View for MinseopModel {
    type V = MinseopView;

    closed spec fn view(&self) -> MinseopView {
        MinseopView {
            current_stock: match self.current_stock {
                Some(s) => Some(s@),
                None => None,
            },
            position_size: self.position_size,
            remaining_size: self.remaining_size,
            entry_price: self.entry_price,
            state: self.state,
            stop_loss_pct: self.stop_loss_pct,
            take_profit_pct: self.take_profit_pct,
            entry_time_str: self.entry_time_str@,
            force_close_time_str: self.force_close_time_str@,
            entry_asset_ratio: self.entry_asset_ratio,
            fixed_entry_amount: self.fixed_entry_amount,
        }
    }
}

impl MinseopModel {
    /// The bookkeeping holds at every step.
    #[verifier::type_invariant]
    spec fn inv(&self) -> bool {
        self@.wf()
    }

    /// The built-in settings.
    pub open spec fn default_settings(v: MinseopView) -> bool {
        &&& v.stop_loss_pct == 100
        &&& v.take_profit_pct == 200
        &&& v.entry_time_str == "09:30:00"@
        &&& v.force_close_time_str == "12:00:00"@
        &&& v.entry_asset_ratio == 9000
        &&& v.fixed_entry_amount == 1_000_000
    }

    /// The strategy with the given settings, or with the built-in ones (1%
    /// stop loss, 2% take profit, entry 09:30:00, close-out 12:00:00, 90% of
    /// the assets, 1,000,000 won fixed) when there are none.
    pub fn new(settings: Option<MinseopSettings>) -> (r: Self)
        ensures
            r@.is_fresh(),
            r@.wf(),
            match settings {
                Some(c) => {
                    &&& r@.stop_loss_pct == c.stop_loss_pct
                    &&& r@.take_profit_pct == c.take_profit_pct
                    &&& r@.entry_time_str == c.entry_time@
                    &&& r@.force_close_time_str == c.force_close_time@
                    &&& r@.entry_asset_ratio == c.entry_asset_ratio
                    &&& r@.fixed_entry_amount == c.fixed_entry_amount
                },
                None => Self::default_settings(r@),
            },
            settings is None ==> r@.stop_loss_pct == 100 && r@.take_profit_pct == 200
                && r@.entry_time_str == "09:30:00"@ && r@.force_close_time_str == "12:00:00"@
                && r@.entry_asset_ratio == 9000 && r@.fixed_entry_amount == 1_000_000,
    {
        match settings {
            Some(c) => MinseopModel {
                current_stock: None,
                position_size: 0,
                remaining_size: 0,
                entry_price: 0,
                state: TradingState::WaitingForEntry,
                stop_loss_pct: c.stop_loss_pct,
                take_profit_pct: c.take_profit_pct,
                entry_time_str: c.entry_time,
                force_close_time_str: c.force_close_time,
                entry_asset_ratio: c.entry_asset_ratio,
                fixed_entry_amount: c.fixed_entry_amount,
            },
            None => Self::with_default_values(),
        }
    }

    /// The strategy with the built-in settings.
    pub fn with_default_values() -> (r: Self)
        ensures
            r@.is_fresh(),
            r@.wf(),
            Self::default_settings(r@),
    {
        MinseopModel {
            current_stock: None,
            position_size: 0,
            remaining_size: 0,
            entry_price: 0,
            state: TradingState::WaitingForEntry,
            stop_loss_pct: 100,
            take_profit_pct: 200,
            entry_time_str: String::from_str("09:30:00"),
            force_close_time_str: String::from_str("12:00:00"),
            entry_asset_ratio: 9000,
            fixed_entry_amount: 1_000_000,
        }
    }

    /// Where the position stands.
    pub fn state(&self) -> (r: TradingState)
        ensures
            r == self@.state,
    {
        self.state
    }

    /// Shares still held.
    pub fn remaining_size(&self) -> (r: u32)
        ensures
            r == self@.remaining_size,
    {
        self.remaining_size
    }

    /// Shares bought at entry.
    pub fn position_size(&self) -> (r: u32)
        ensures
            r == self@.position_size,
    {
        self.position_size
    }

    /// The entry price in won.
    pub fn entry_price(&self) -> (r: u64)
        ensures
            r == self@.entry_price,
    {
        self.entry_price
    }

    /// Reads the hour and minute of a `HH:MM:SS` string.
    pub fn parse_time_string(&self, time_str: &str) -> (r: StockrsResult<(u32, u32)>)
        ensures
            match parse_hm_spec(time_str@) {
                Some(hm) => r == Ok::<(u32, u32), StockrsError>(hm),
                None => r is Err,
            },
    {
        crate::clock::parse_time_string(time_str)
    }

    /// Today's entry time, shifted on a special day.
    pub fn get_entry_time_for_today_global(&self, special_offset: Option<i32>) -> (r: StockrsResult<(u32, u32)>)
        ensures
            match scheduled_hm_spec(self@.entry_time_str, special_offset) {
                Some(hm) => r == Ok::<(u32, u32), StockrsError>(hm),
                None => r is Err,
            },
    {
        scheduled_time(self.entry_time_str.as_str(), special_offset)
    }

    /// Today's close-out time (never shifted).
    pub fn get_force_close_time_for_today_global(&self) -> (r: StockrsResult<(u32, u32)>)
        ensures
            match parse_hm_spec(self@.force_close_time_str) {
                Some(hm) => r == Ok::<(u32, u32), StockrsError>(hm),
                None => r is Err,
            },
    {
        crate::clock::parse_time_string(self.force_close_time_str.as_str())
    }

    /// What the strategy does at the tick `now`.
    pub fn event_phase(&self, now: Timestamp, special_offset: Option<i32>) -> (r: MinseopPhase)
        ensures
            r == minseop_phase(self@, now, special_offset),
    {
        let (entry_hour, entry_minute) = match self.get_entry_time_for_today_global(special_offset) {
            Ok(hm) => hm,
            Err(_) => {
                return MinseopPhase::Idle;
            },
        };
        let (close_hour, close_minute) = match self.get_force_close_time_for_today_global() {
            Ok(hm) => hm,
            Err(_) => {
                return MinseopPhase::Idle;
            },
        };
        let h = now.hour;
        let m = now.minute;
        if h == entry_hour && m == entry_minute {
            MinseopPhase::Entry
        } else if h > close_hour || (h == close_hour && m >= close_minute) {
            MinseopPhase::ForceClose
        } else if (h > entry_hour || (h == entry_hour && m >= entry_minute)) && (h < close_hour || (h
            == close_hour && m <= close_minute)) {
            MinseopPhase::CheckExit
        } else {
            MinseopPhase::Idle
        }
    }

    /// The shares bought at entry at `price` with `asset` won.
    pub fn entry_quantity(&self, price: u64, asset: u64) -> (r: u32)
        ensures
            r == minseop_entry_quantity(self@, price, asset),
    {
        let mut quantity_to_buy: u32 = 0;
        if self.fixed_entry_amount > 0 {
            let fixed = self.fixed_entry_amount as u64;
            let max_quantity_fixed = if price == 0 {
                u32::MAX
            } else {
                let q = fixed / price;
                if q > 4294967295 {
                    u32::MAX
                } else {
                    q as u32
                }
            };
            proof {
                if price > 0 {
                    assert((fixed as int * 10000) / (10000 * price as int) == fixed as int / price as int)
                        by (nonlinear_arith)
                        requires
                            price > 0,
                            fixed >= 0,
                    ;
                }
            }
            if max_quantity_fixed > 0 && fixed <= asset {
                quantity_to_buy = max_quantity_fixed;
            } else {
                quantity_to_buy = quantity_for_ratio(asset, self.entry_asset_ratio, price);
            }
        } else {
            quantity_to_buy = quantity_for_ratio(asset, self.entry_asset_ratio, price);
        }
        quantity_to_buy
    }

    /// Opens the position: buys `stock` at `price`, unless that buys no
    /// share.
    pub fn enter_position(&mut self, now: Timestamp, stock: String, price: u64, asset: u64) -> (r: Option<Order>)
        ensures
            ({
                let qty = minseop_entry_quantity(old(self)@, price, asset);
                if qty == 0 {
                    r is None && final(self)@ == old(self)@
                } else {
                    &&& r matches Some(o) && order_matches(
                        o,
                        now,
                        stock@,
                        OrderIntent {
                            side: OrderSide::Buy,
                            quantity: qty,
                            price,
                            strategy: "minseop_entry"@,
                        },
                    )
                    &&& final(self)@ == minseop_entered(old(self)@, stock@, price, qty)
                }
            }),
    {
        proof {
            use_type_invariant(&*self);
        }
        let quantity_to_buy = self.entry_quantity(price, asset);
        if quantity_to_buy == 0 {
            return None;
        }
        let order = Order {
            date: now,
            stockcode: stock.clone(),
            side: OrderSide::Buy,
            quantity: quantity_to_buy,
            price,
            fee: 0,
            strategy: String::from_str("minseop_entry"),
        };
        self.current_stock = Some(stock);
        self.remaining_size = 0;
        self.state = TradingState::Holding;
        self.position_size = quantity_to_buy;
        self.remaining_size = quantity_to_buy;
        self.entry_price = price;
        Some(order)
    }

    /// At the entry minute, with nothing bought yet: asks the regression
    /// model for today's stock, skips a negative value, reads the price and
    /// the balance, then opens the position.
    pub fn try_entry_global<A: StockApi, C: MarketContext>(
        &mut self,
        apis: &ApiBundle<A>,
        ctx: &mut C,
        now: Timestamp,
        special_offset: Option<i32>,
    ) -> (r: StockrsResult<Option<Order>>)
        requires
            now.wf(),
        ensures
            old(self)@.state != TradingState::WaitingForEntry ==> r == Ok::<
                Option<Order>,
                StockrsError,
            >(None) && final(self)@ == old(self)@,
            old(self)@.state == TradingState::WaitingForEntry ==> match scheduled_hm_spec(
                old(self)@.entry_time_str,
                special_offset,
            ) {
                None => r is Err && final(self)@ == old(self)@,
                Some(hm) => (now.hour != hm.0 || now.minute != hm.1) ==> r == Ok::<
                    Option<Order>,
                    StockrsError,
                >(None) && final(self)@ == old(self)@,
            },
            r is Err ==> final(self)@ == old(self)@,
            r matches Ok(None) ==> final(self)@ == old(self)@,
            r matches Ok(Some(o)) ==> o.side == OrderSide::Buy && minseop_tick_effect(
                old(self)@,
                final(self)@,
                Some(o),
                now,
            ),
            r matches Ok(Some(o)) ==> price_answer(apis, o.stockcode@, ymdhm_text(now), Ok(o.price)),
            r matches Ok(Some(o)) ==> regression_picked(*old(ctx), ymd_text(now), o.stockcode@),
            r matches Ok(Some(o)) ==> exists|b: AssetInfo|
                #![trigger balance_answer(apis, Ok::<AssetInfo, StockrsError>(b))]
                balance_answer(apis, Ok::<AssetInfo, StockrsError>(b)) && o.quantity
                    == minseop_entry_quantity(old(self)@, o.price, b.asset),
    {
        if self.state != TradingState::WaitingForEntry {
            return Ok(None);
        }
        let (entry_hour, entry_minute) = self.get_entry_time_for_today_global(special_offset)?;
        if now.hour != entry_hour || now.minute != entry_minute {
            return Ok(None);
        }
        let today_str = format_ymd(&now);
        let ghost ctx0 = *ctx;
        let day = today_str.as_str();
        let pick = ctx.predict_top_stock_regression(day);
        assert(regression_answer(ctx0, ymd_text(now), pick));
        let target_stock = match entry_pick(pick?) {
            Some(stock) => stock,
            None => {
                return Ok(None);
            },
        };
        assert(regression_picked(ctx0, ymd_text(now), target_stock@));
        let current_time_str = format_ymdhm(&now);
        let answer = apis.get_current_price(target_stock.as_str(), current_time_str.as_str());
        assert(price_answer(apis, target_stock@, ymdhm_text(now), answer));
        let ghost seen = answer;
        let current_price = match answer {
            Ok(p) => p,
            Err(e) => {
                if apis.is_backtest_mode() && ctx.skip_missing_price_as_unavailable()
                    && error_mentions_phrase(&e, "해당 종목의 데이터가 1분봉 DB에 존재하지 않습니다") {
                    return Ok(None);
                }
                return Err(e);
            },
        };
        let balance = apis.get_balance();
        assert(balance_answer(apis, balance));
        let balance_info = balance?;
        let available_balance = balance_info.get_asset();
        Ok(self.enter_position(now, target_stock, current_price, available_balance))
    }

    /// Sells everything left at `price`, naming the rule `reason`; nothing
    /// when nothing is left.
    fn create_sell_all_order_global(&mut self, now: Timestamp, price: u64, reason: &str) -> (r: Option<Order>)
        requires
            old(self)@.current_stock is Some,
        ensures
            old(self)@.remaining_size == 0 ==> r is None && final(self)@ == old(self)@,
            old(self)@.remaining_size > 0 ==> {
                &&& r matches Some(o) && order_matches(
                    o,
                    now,
                    old(self)@.current_stock.unwrap(),
                    OrderIntent {
                        side: OrderSide::Sell,
                        quantity: old(self)@.remaining_size,
                        price,
                        strategy: reason@,
                    },
                )
                &&& final(self)@ == (MinseopView { remaining_size: 0, ..old(self)@ })
            },
    {
        proof {
            use_type_invariant(&*self);
        }
        if self.remaining_size == 0 {
            return None;
        }
        let order = Order {
            date: now,
            stockcode: self.current_stock.as_ref().unwrap().clone(),
            side: OrderSide::Sell,
            quantity: self.remaining_size,
            price,
            fee: 0,
            strategy: reason.to_owned(),
        };
        self.remaining_size = 0;
        Some(order)
    }

    /// From the close-out time on, with the position held: sells everything
    /// at the price now and closes.
    pub fn force_close_all_global<A: StockApi>(&mut self, apis: &ApiBundle<A>, now: Timestamp) -> (r:
        StockrsResult<Option<Order>>)
        requires
            now.wf(),
        ensures
            old(self)@.state != TradingState::Holding ==> r == Ok::<
                Option<Order>,
                StockrsError,
            >(None) && final(self)@ == old(self)@,
            r is Err ==> final(self)@ == old(self)@,
            r matches Ok(x) ==> minseop_tick_effect(old(self)@, final(self)@, x, now),
            r matches Ok(x) ==> (final(self)@ == old(self)@ || final(self)@ == minseop_closed(
                old(self)@,
            )),
            r matches Ok(Some(o)) ==> price_answer(apis, o.stockcode@, ymdhm_text(now), Ok(o.price)),
            r matches Ok(Some(o)) ==> o.side == OrderSide::Sell && o.strategy@ == "force_close"@
                && o.quantity == old(self)@.remaining_size,
            old(self)@.state == TradingState::Holding ==> match parse_hm_spec(
                old(self)@.force_close_time_str,
            ) {
                None => r is Err,
                Some(hm) => (now.hour > hm.0 || (now.hour == hm.0 && now.minute >= hm.1)) ==> (r is Err
                    || (old(self)@.remaining_size > 0 ==> r matches Ok(Some(_)))),
            },
    {
        proof {
            use_type_invariant(&*self);
        }
        if self.state != TradingState::Holding {
            return Ok(None);
        }
        let (close_hour, close_minute) = self.get_force_close_time_for_today_global()?;
        let is_before_force_close = now.hour < close_hour || (now.hour == close_hour && now.minute
            < close_minute);
        if is_before_force_close {
            return Ok(None);
        }
        let current_time_str = format_ymdhm(&now);
        let current_price = {
            let stock_code = self.current_stock.as_ref().unwrap();
            let answer = apis.get_current_price(stock_code.as_str(), current_time_str.as_str());
            assert(price_answer(apis, stock_code@, ymdhm_text(now), answer));
            answer?
        };
        let order = self.create_sell_all_order_global(now, current_price, "force_close");
        self.state = TradingState::Closed;
        Ok(order)
    }

    /// The exit rules applied to a held position at `price`.
    pub fn exit_decision(&mut self, now: Timestamp, price: u64) -> (r: Option<Order>)
        requires
            old(self)@.state == TradingState::Holding,
        ensures
            match minseop_exit_spec(old(self)@, price) {
                Some(reason) => {
                    &&& final(self)@ == minseop_closed(old(self)@)
                    &&& old(self)@.remaining_size > 0 ==> (r matches Some(o) && order_matches(
                        o,
                        now,
                        old(self)@.current_stock.unwrap(),
                        OrderIntent {
                            side: OrderSide::Sell,
                            quantity: old(self)@.remaining_size,
                            price,
                            strategy: reason,
                        },
                    ))
                    &&& old(self)@.remaining_size == 0 ==> r is None
                },
                None => r is None && final(self)@ == old(self)@,
            },
    {
        proof {
            use_type_invariant(&*self);
        }
        if rate_is_at_most(price, self.entry_price, -(self.stop_loss_pct as i128)) {
            let order = self.create_sell_all_order_global(now, price, "stop_loss");
            self.state = TradingState::Closed;
            return order;
        }
        if rate_is_at_least(price, self.entry_price, self.take_profit_pct as i128) {
            let order = self.create_sell_all_order_global(now, price, "take_profit");
            self.state = TradingState::Closed;
            return order;
        }
        None
    }

    /// With the position held: reads the price now and applies the exit
    /// rules.
    pub fn check_exit_conditions_global<A: StockApi>(&mut self, apis: &ApiBundle<A>, now: Timestamp) -> (r:
        StockrsResult<Option<Order>>)
        requires
            now.wf(),
        ensures
            old(self)@.state != TradingState::Holding ==> r == Ok::<
                Option<Order>,
                StockrsError,
            >(None) && final(self)@ == old(self)@,
            r is Err ==> final(self)@ == old(self)@,
            r matches Ok(x) ==> minseop_tick_effect(old(self)@, final(self)@, x, now),
            r matches Ok(x) ==> (final(self)@ == old(self)@ || final(self)@ == minseop_closed(
                old(self)@,
            )),
            r matches Ok(Some(o)) ==> price_answer(apis, o.stockcode@, ymdhm_text(now), Ok(o.price)),
    {
        proof {
            use_type_invariant(&*self);
        }
        if self.state != TradingState::Holding {
            return Ok(None);
        }
        let current_time_str = format_ymdhm(&now);
        let current_price = {
            let stock_code = self.current_stock.as_ref().unwrap();
            let answer = apis.get_current_price(stock_code.as_str(), current_time_str.as_str());
            assert(price_answer(apis, stock_code@, ymdhm_text(now), answer));
            answer?
        };
        Ok(self.exit_decision(now, current_price))
    }
}

impl Model for MinseopModel {
    fn on_start(&mut self) -> (r: StockrsResult<()>)
        ensures
            r is Ok,
            final(self)@ == (MinseopView { state: TradingState::WaitingForEntry, ..old(self)@ }),
    {
        proof {
            use_type_invariant(&*self);
        }
        self.state = TradingState::WaitingForEntry;
        Ok(())
    }

    fn on_event<A: StockApi, C: MarketContext>(
        &mut self,
        apis: &ApiBundle<A>,
        ctx: &mut C,
        now: Timestamp,
        special_offset: Option<i32>,
    ) -> (r: StockrsResult<Option<Order>>)
        ensures
            r is Err ==> final(self)@ == old(self)@,
            r matches Ok(x) ==> minseop_tick_effect(old(self)@, final(self)@, x, now),
            minseop_phase(old(self)@, now, special_offset) == MinseopPhase::Idle ==> r == Ok::<
                Option<Order>,
                StockrsError,
            >(None) && final(self)@ == old(self)@,
            old(self)@.state == TradingState::Closed ==> r == Ok::<Option<Order>, StockrsError>(None)
                && final(self)@ == old(self)@,
            r matches Ok(Some(o)) ==> price_answer(apis, o.stockcode@, ymdhm_text(now), Ok(o.price)),
            r matches Ok(Some(o)) ==> (o.side == OrderSide::Buy ==> regression_picked(
                *old(ctx),
                ymd_text(now),
                o.stockcode@,
            )),
            r matches Ok(Some(o)) ==> (o.side == OrderSide::Buy ==> exists|b: AssetInfo|
                #![trigger balance_answer(apis, Ok::<AssetInfo, StockrsError>(b))]
                balance_answer(apis, Ok::<AssetInfo, StockrsError>(b)) && o.quantity
                    == minseop_entry_quantity(old(self)@, o.price, b.asset)),
    {
        match self.event_phase(now, special_offset) {
            MinseopPhase::Entry => self.try_entry_global(apis, ctx, now, special_offset),
            MinseopPhase::ForceClose => self.force_close_all_global(apis, now),
            MinseopPhase::CheckExit => self.check_exit_conditions_global(apis, now),
            MinseopPhase::Idle => Ok(None),
        }
    }

    fn on_end(&mut self) -> (r: StockrsResult<()>)
        ensures
            r is Ok,
            final(self)@ == old(self)@,
    {
        Ok(())
    }

    fn reset_for_new_day(&mut self) -> (r: StockrsResult<()>)
        ensures
            r is Ok,
            final(self)@.is_fresh(),
            final(self)@.same_settings(old(self)@),
    {
        proof {
            use_type_invariant(&*self);
        }
        self.remaining_size = 0;
        self.state = TradingState::WaitingForEntry;
        self.current_stock = None;
        self.position_size = 0;
        self.entry_price = 0;
        Ok(())
    }
}

} // verus!

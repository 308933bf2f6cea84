//! The joonwoo strategy: at the configured entry time it buys the stock the
//! classifier ranks first with a share of the account; it then sells all on
//! a stop loss, half on a take profit, the rest on a trailing stop after
//! that, and everything at the configured close time.
//!
//! Percentages are held in hundredths of a percent and prices in won.
use vstd::prelude::*;
use crate::api::StockApi;
use crate::clock::{format_ymd, format_ymdhm, scheduled_hm_spec, scheduled_time, ymd_text, ymdhm_text};
use crate::error::{StockrsError, StockrsResult};
use crate::model::{balance_answer, classifier_answer, classifier_picked, price_at_time_answer, ApiBundle, MarketContext, Model};
use crate::types::{
    affordable_quantity, order_matches, quantity_for_ratio, rate_at_least, rate_at_most,
    rate_is_at_least, rate_is_at_most, AssetInfo, Order, OrderIntent, OrderSide, Timestamp,
};

verus! {

/// Where a joonwoo position stands.
#[derive(Clone, Copy, Debug, PartialEq, Eq, Structural)]
pub enum TradingState {
    /// Waiting for the entry time.
    WaitingForEntry,
    /// Holding the whole position.
    Holding,
    /// Half sold at the take profit; the rest is held.
    PartialSold,
    /// Everything sold.
    Closed,
}

/// The configurable part of the strategy.
pub struct JoonwooSettings {
    /// Loss that sells everything, in hundredths of a percent.
    pub stop_loss_pct: i64,
    /// Gain that sells half, in hundredths of a percent.
    pub take_profit_pct: i64,
    /// Fall from the high after the take profit that sells the rest, in
    /// hundredths of a percent.
    pub trailing_stop_pct: i64,
    /// Entry time, `HH:MM:SS`.
    pub entry_time: String,
    /// Close-out time, `HH:MM:SS`.
    pub force_close_time: String,
    /// Share of the assets spent at entry, in hundredths of a percent.
    pub entry_asset_ratio: i64,
}

/// The joonwoo strategy's state.
pub struct JoonwooModel {
    current_stock: Option<String>,
    position_size: u32,
    remaining_size: u32,
    entry_price: u64,
    entry_time: Option<Timestamp>,
    state: TradingState,
    highest_price_after_2pct: Option<u64>,
    stop_loss_pct: i64,
    take_profit_pct: i64,
    trailing_stop_pct: i64,
    entry_time_str: String,
    force_close_time_str: String,
    entry_asset_ratio: i64,
}

/// The strategy's state as values.
pub struct JoonwooView {
    pub current_stock: Option<Seq<char>>,
    pub position_size: u32,
    pub remaining_size: u32,
    pub entry_price: u64,
    pub entry_time: Option<Timestamp>,
    pub state: TradingState,
    pub highest_price_after_2pct: Option<u64>,
    pub stop_loss_pct: i64,
    pub take_profit_pct: i64,
    pub trailing_stop_pct: i64,
    pub entry_time_str: Seq<char>,
    pub force_close_time_str: Seq<char>,
    pub entry_asset_ratio: i64,
}

impl JoonwooView {
    /// The bookkeeping that every step keeps: what is left never exceeds
    /// what was bought, a position being held names its stock, a closed
    /// position holds nothing, and a half-sold position knows its high.
    pub open spec fn wf(self) -> bool {
        &&& self.remaining_size <= self.position_size
        &&& self.remaining_size > 0 ==> self.current_stock is Some
        &&& (self.state == TradingState::Holding || self.state == TradingState::PartialSold)
            ==> self.current_stock is Some
        &&& self.state == TradingState::PartialSold ==> self.highest_price_after_2pct is Some
        &&& self.state == TradingState::Closed ==> self.remaining_size == 0
    }

    /// The same configured values.
    pub open spec fn same_settings(self, other: JoonwooView) -> bool {
        &&& self.stop_loss_pct == other.stop_loss_pct
        &&& self.take_profit_pct == other.take_profit_pct
        &&& self.trailing_stop_pct == other.trailing_stop_pct
        &&& self.entry_time_str == other.entry_time_str
        &&& self.force_close_time_str == other.force_close_time_str
        &&& self.entry_asset_ratio == other.entry_asset_ratio
    }

    /// A fresh trading day: nothing held, waiting for the entry time.
    pub open spec fn is_fresh(self) -> bool {
        &&& self.current_stock is None
        &&& self.position_size == 0
        &&& self.remaining_size == 0
        &&& self.entry_price == 0
        &&& self.entry_time is None
        &&& self.state == TradingState::WaitingForEntry
        &&& self.highest_price_after_2pct is None
    }
}

/// What the strategy does at a tick, by the time of day.
#[derive(Clone, Copy, Debug, PartialEq, Eq, Structural)]
pub enum JoonwooPhase {
    /// The entry minute.
    Entry,
    /// The close-out minute.
    ForceClose,
    /// Between entry and close-out: watch the exits.
    CheckExit,
    /// Outside the trading window, or a schedule that does not read.
    Idle,
}

/// The phase of a tick at `h:m`, given the day's entry and close-out times.
pub open spec fn phase_for(h: u32, m: u32, entry: (u32, u32), close: (u32, u32)) -> JoonwooPhase {
    if h == entry.0 && m == entry.1 {
        JoonwooPhase::Entry
    } else if h == close.0 && m == close.1 {
        JoonwooPhase::ForceClose
    } else if (h > entry.0 || (h == entry.0 && m >= entry.1)) && (h < close.0 || (h == close.0 && m
        <= close.1)) {
        JoonwooPhase::CheckExit
    } else {
        JoonwooPhase::Idle
    }
}

/// The phase of the tick at `now` for a strategy in state `s`.
pub open spec fn joonwoo_phase(s: JoonwooView, now: Timestamp, special_offset: Option<i32>) -> JoonwooPhase {
    match (
        scheduled_hm_spec(s.entry_time_str, special_offset),
        scheduled_hm_spec(s.force_close_time_str, special_offset),
    ) {
        (Some(entry), Some(close)) => phase_for(now.hour, now.minute, entry, close),
        _ => JoonwooPhase::Idle,
    }
}

/// The state after buying `qty` shares of `stock` at `price` at `now`.
pub open spec fn entered(s: JoonwooView, now: Timestamp, stock: Seq<char>, price: u64, qty: u32) -> JoonwooView {
    JoonwooView {
        current_stock: Some(stock),
        position_size: qty,
        remaining_size: qty,
        entry_price: price,
        entry_time: Some(now),
        state: TradingState::Holding,
        ..s
    }
}

/// What the exit rules do to a held position at `price`: the next state and
/// the sell order, if any.
pub open spec fn joonwoo_exit_spec(s: JoonwooView, price: u64) -> (JoonwooView, Option<OrderIntent>) {
    if rate_at_most(price as int, s.entry_price as int, -s.stop_loss_pct) {
        (
            JoonwooView { remaining_size: 0, state: TradingState::Closed, ..s },
            Some(
                OrderIntent {
                    side: OrderSide::Sell,
                    quantity: s.remaining_size,
                    price,
                    strategy: "joonwoo_stop_loss"@,
                },
            ),
        )
    } else if rate_at_least(price as int, s.entry_price as int, s.take_profit_pct as int) && s.state
        == TradingState::Holding {
        let half = s.remaining_size / 2;
        (
            JoonwooView {
                remaining_size: (s.remaining_size - half) as u32,
                state: TradingState::PartialSold,
                highest_price_after_2pct: Some(price),
                ..s
            },
            Some(
                OrderIntent {
                    side: OrderSide::Sell,
                    quantity: half,
                    price,
                    strategy: "joonwoo_take_profit_half"@,
                },
            ),
        )
    } else if s.state == TradingState::PartialSold && s.highest_price_after_2pct is Some {
        let high = s.highest_price_after_2pct.unwrap();
        let updated = if price > high { price } else { high };
        if rate_at_most(price as int, updated as int, -s.trailing_stop_pct) {
            (
                JoonwooView {
                    remaining_size: 0,
                    state: TradingState::Closed,
                    highest_price_after_2pct: Some(updated),
                    ..s
                },
                Some(
                    OrderIntent {
                        side: OrderSide::Sell,
                        quantity: s.remaining_size,
                        price,
                        strategy: "joonwoo_trailing_stop"@,
                    },
                ),
            )
        } else {
            (JoonwooView { highest_price_after_2pct: Some(updated), ..s }, None)
        }
    } else {
        (s, None)
    }
}

/// The state after selling everything left.
pub open spec fn sold_out(s: JoonwooView) -> JoonwooView {
    JoonwooView { remaining_size: 0, state: TradingState::Closed, ..s }
}

/// The effect of one tick on the position: nothing, a buy from a waiting
/// state that opens it, or a sell of part of what is left.
pub open spec fn tick_effect(old: JoonwooView, new: JoonwooView, r: Option<Order>, now: Timestamp) -> bool {
    match r {
        None => old.current_stock == new.current_stock && old.position_size == new.position_size
            && old.remaining_size == new.remaining_size && old.state == new.state,
        Some(o) => {
            &&& o.date == now
            &&& o.fee == 0
            &&& new.same_settings(old)
            &&& match o.side {
                OrderSide::Buy => {
                    &&& old.state == TradingState::WaitingForEntry
                    &&& new.state == TradingState::Holding
                    &&& o.quantity > 0
                    &&& new.position_size == o.quantity
                    &&& new.remaining_size == o.quantity
                    &&& new.entry_price == o.price
                    &&& new.current_stock == Some(o.stockcode@)
                },
                OrderSide::Sell => {
                    &&& old.current_stock == Some(o.stockcode@)
                    &&& new.current_stock == old.current_stock
                    &&& new.position_size == old.position_size
                    &&& o.quantity + new.remaining_size == old.remaining_size
                },
            }
        },
    }
}

impl View for JoonwooModel {
    type V = JoonwooView;

    closed spec fn view(&self) -> JoonwooView {
        JoonwooView {
            current_stock: match self.current_stock {
                Some(s) => Some(s@),
                None => None,
            },
            position_size: self.position_size,
            remaining_size: self.remaining_size,
            entry_price: self.entry_price,
            entry_time: self.entry_time,
            state: self.state,
            highest_price_after_2pct: self.highest_price_after_2pct,
            stop_loss_pct: self.stop_loss_pct,
            take_profit_pct: self.take_profit_pct,
            trailing_stop_pct: self.trailing_stop_pct,
            entry_time_str: self.entry_time_str@,
            force_close_time_str: self.force_close_time_str@,
            entry_asset_ratio: self.entry_asset_ratio,
        }
    }
}

impl JoonwooModel {
    /// The bookkeeping holds at every step.
    #[verifier::type_invariant]
    spec fn inv(&self) -> bool {
        self@.wf()
    }

    /// The strategy with the given settings, or with the built-in ones
    /// (1% stop loss, 2% take profit, 0.7% trailing stop, entry 09:30:00,
    /// close-out 12:00:00, 90% of the assets) when there are none.
    pub fn new(settings: Option<JoonwooSettings>) -> (r: Self)
        ensures
            r@.is_fresh(),
            r@.wf(),
            match settings {
                Some(c) => {
                    &&& r@.stop_loss_pct == c.stop_loss_pct
                    &&& r@.take_profit_pct == c.take_profit_pct
                    &&& r@.trailing_stop_pct == c.trailing_stop_pct
                    &&& r@.entry_time_str == c.entry_time@
                    &&& r@.force_close_time_str == c.force_close_time@
                    &&& r@.entry_asset_ratio == c.entry_asset_ratio
                },
                None => Self::default_settings(r@),
            },
            settings is None ==> r@.stop_loss_pct == 100 && r@.take_profit_pct == 200
                && r@.trailing_stop_pct == 70 && r@.entry_time_str == "09:30:00"@
                && r@.force_close_time_str == "12:00:00"@ && r@.entry_asset_ratio == 9000,
    {
        match settings {
            Some(c) => JoonwooModel {
                current_stock: None,
                position_size: 0,
                remaining_size: 0,
                entry_price: 0,
                entry_time: None,
                state: TradingState::WaitingForEntry,
                highest_price_after_2pct: None,
                stop_loss_pct: c.stop_loss_pct,
                take_profit_pct: c.take_profit_pct,
                trailing_stop_pct: c.trailing_stop_pct,
                entry_time_str: c.entry_time,
                force_close_time_str: c.force_close_time,
                entry_asset_ratio: c.entry_asset_ratio,
            },
            None => Self::with_default_values(),
        }
    }

    /// The built-in settings.
    pub open spec fn default_settings(v: JoonwooView) -> bool {
        &&& v.stop_loss_pct == 100
        &&& v.take_profit_pct == 200
        &&& v.trailing_stop_pct == 70
        &&& v.entry_time_str == "09:30:00"@
        &&& v.force_close_time_str == "12:00:00"@
        &&& v.entry_asset_ratio == 9000
    }

    /// The strategy with the built-in settings.
    pub fn with_default_values() -> (r: Self)
        ensures
            r@.is_fresh(),
            r@.wf(),
            Self::default_settings(r@),
    {
        JoonwooModel {
            current_stock: None,
            position_size: 0,
            remaining_size: 0,
            entry_price: 0,
            entry_time: None,
            state: TradingState::WaitingForEntry,
            highest_price_after_2pct: None,
            stop_loss_pct: 100,
            take_profit_pct: 200,
            trailing_stop_pct: 70,
            entry_time_str: String::from_str("09:30:00"),
            force_close_time_str: String::from_str("12:00:00"),
            entry_asset_ratio: 9000,
        }
    }

    /// Where the position stands.
    pub fn state(&self) -> (r: TradingState)
        ensures
            r == self@.state,
    {
        self.state
    }

    /// Shares still held.
    pub fn remaining_size(&self) -> (r: u32)
        ensures
            r == self@.remaining_size,
    {
        self.remaining_size
    }

    /// Shares bought at entry.
    pub fn position_size(&self) -> (r: u32)
        ensures
            r == self@.position_size,
    {
        self.position_size
    }

    /// The entry price in won.
    pub fn entry_price(&self) -> (r: u64)
        ensures
            r == self@.entry_price,
    {
        self.entry_price
    }

    /// The stock held, if any.
    pub fn current_stock(&self) -> (r: Option<&String>)
        ensures
            match r {
                Some(s) => self@.current_stock == Some(s@),
                None => self@.current_stock is None,
            },
    {
        self.current_stock.as_ref()
    }

    /// The highest price seen since the take profit, if it was taken.
    pub fn highest_price_after_take_profit(&self) -> (r: Option<u64>)
        ensures
            r == self@.highest_price_after_2pct,
    {
        self.highest_price_after_2pct
    }

    /// Reads the hour and minute of a `HH:MM:SS` string.
    pub fn parse_time_string(&self, time_str: &str) -> (r: StockrsResult<(u32, u32)>)
        ensures
            match crate::clock::parse_hm_spec(time_str@) {
                Some(hm) => r == Ok::<(u32, u32), StockrsError>(hm),
                None => r is Err,
            },
    {
        crate::clock::parse_time_string(time_str)
    }

    /// Today's entry time, shifted on a special day.
    pub fn get_entry_time_for_today(&self, special_offset: Option<i32>) -> (r: StockrsResult<(u32, u32)>)
        ensures
            match scheduled_hm_spec(self@.entry_time_str, special_offset) {
                Some(hm) => r == Ok::<(u32, u32), StockrsError>(hm),
                None => r is Err,
            },
    {
        scheduled_time(self.entry_time_str.as_str(), special_offset)
    }

    /// Today's close-out time, shifted on a special day.
    pub fn get_force_close_time_for_today(&self, special_offset: Option<i32>) -> (r: StockrsResult<(u32, u32)>)
        ensures
            match scheduled_hm_spec(self@.force_close_time_str, special_offset) {
                Some(hm) => r == Ok::<(u32, u32), StockrsError>(hm),
                None => r is Err,
            },
    {
        scheduled_time(self.force_close_time_str.as_str(), special_offset)
    }

    /// What the strategy does at the tick `now`.
    pub fn event_phase(&self, now: Timestamp, special_offset: Option<i32>) -> (r: JoonwooPhase)
        ensures
            r == joonwoo_phase(self@, now, special_offset),
    {
        let (entry_hour, entry_minute) = match self.get_entry_time_for_today(special_offset) {
            Ok(hm) => hm,
            Err(_) => {
                return JoonwooPhase::Idle;
            },
        };
        let (close_hour, close_minute) = match self.get_force_close_time_for_today(special_offset) {
            Ok(hm) => hm,
            Err(_) => {
                return JoonwooPhase::Idle;
            },
        };
        let h = now.hour;
        let m = now.minute;
        if h == entry_hour && m == entry_minute {
            JoonwooPhase::Entry
        } else if h == close_hour && m == close_minute {
            JoonwooPhase::ForceClose
        } else if (h > entry_hour || (h == entry_hour && m >= entry_minute)) && (h < close_hour || (h
            == close_hour && m <= close_minute)) {
            JoonwooPhase::CheckExit
        } else {
            JoonwooPhase::Idle
        }
    }

    /// Opens the position: buys `stock` at `price` with the configured share
    /// of `asset` won, unless that buys no share.
    pub fn enter_position(&mut self, now: Timestamp, stock: String, price: u64, asset: u64) -> (r: Option<Order>)
        ensures
            ({
                let qty = affordable_quantity(asset, old(self)@.entry_asset_ratio, price);
                if qty == 0 {
                    r is None && final(self)@ == old(self)@
                } else {
                    &&& r matches Some(o) && order_matches(
                        o,
                        now,
                        stock@,
                        OrderIntent {
                            side: OrderSide::Buy,
                            quantity: qty,
                            price,
                            strategy: "joonwoo_entry"@,
                        },
                    )
                    &&& final(self)@ == entered(old(self)@, now, stock@, price, qty)
                }
            }),
    {
        proof {
            use_type_invariant(&*self);
        }
        let max_quantity = quantity_for_ratio(asset, self.entry_asset_ratio, price);
        if max_quantity == 0 {
            return None;
        }
        let order = Order {
            date: now,
            stockcode: stock.clone(),
            side: OrderSide::Buy,
            quantity: max_quantity,
            price,
            fee: 0,
            strategy: String::from_str("joonwoo_entry"),
        };
        self.current_stock = Some(stock);
        self.remaining_size = 0;
        self.state = TradingState::Holding;
        self.position_size = max_quantity;
        self.remaining_size = max_quantity;
        self.entry_price = price;
        self.entry_time = Some(now);
        Some(order)
    }

    /// At the entry minute, with nothing bought yet: asks the classifier for
    /// today's stock, its price now and the balance, then opens the
    /// position.
    pub fn try_entry<A: StockApi, C: MarketContext>(
        &mut self,
        apis: &ApiBundle<A>,
        ctx: &mut C,
        now: Timestamp,
        special_offset: Option<i32>,
    ) -> (r: StockrsResult<Option<Order>>)
        requires
            now.wf(),
        ensures
            old(self)@.state != TradingState::WaitingForEntry ==> r == Ok::<
                Option<Order>,
                StockrsError,
            >(None) && final(self)@ == old(self)@,
            old(self)@.state == TradingState::WaitingForEntry ==> match scheduled_hm_spec(
                old(self)@.entry_time_str,
                special_offset,
            ) {
                None => r is Err && final(self)@ == old(self)@,
                Some(hm) => (now.hour != hm.0 || now.minute != hm.1) ==> r == Ok::<
                    Option<Order>,
                    StockrsError,
                >(None) && final(self)@ == old(self)@,
            },
            r is Err ==> final(self)@ == old(self)@,
            r matches Ok(None) ==> final(self)@ == old(self)@,
            r matches Ok(Some(o)) ==> o.side == OrderSide::Buy && tick_effect(
                old(self)@,
                final(self)@,
                Some(o),
                now,
            ) && final(self)@.entry_time == Some(now),
            r matches Ok(Some(o)) ==> price_at_time_answer(apis, o.stockcode@, ymdhm_text(now), Ok(o.price)),
            r matches Ok(Some(o)) ==> classifier_picked(*old(ctx), ymd_text(now), o.stockcode@),
            r matches Ok(Some(o)) ==> exists|b: AssetInfo|
                #![trigger balance_answer(apis, Ok::<AssetInfo, StockrsError>(b))]
                balance_answer(apis, Ok::<AssetInfo, StockrsError>(b)) && o.quantity
                    == affordable_quantity(b.asset, old(self)@.entry_asset_ratio, o.price),
    {
        if self.state != TradingState::WaitingForEntry {
            return Ok(None);
        }
        let (entry_hour, entry_minute) = self.get_entry_time_for_today(special_offset)?;
        if now.hour != entry_hour || now.minute != entry_minute {
            return Ok(None);
        }
        let today_str = format_ymd(&now);
        let ghost ctx0 = *ctx;
        let day = today_str.as_str();
        let pick = ctx.predict_top_stock(day);
        assert(classifier_answer(ctx0, ymd_text(now), pick));
        let target_stock = match pick? {
            Some(stock) => stock,
            None => {
                return Ok(None);
            },
        };
        assert(classifier_picked(ctx0, ymd_text(now), target_stock@));
        let current_time_str = format_ymdhm(&now);
        let answer = apis.get_current_price_at_time(target_stock.as_str(), current_time_str.as_str());
        assert(price_at_time_answer(apis, target_stock@, ymdhm_text(now), answer));
        let current_price = answer?;
        let balance = apis.get_balance();
        assert(balance_answer(apis, balance));
        let balance_info = balance?;
        let asset = balance_info.get_asset();
        let r = self.enter_position(now, target_stock, current_price, asset);
        Ok(r)
    }

    /// Sells everything left at `price`, naming the rule `strategy`.
    fn create_sell_all_order(&mut self, now: Timestamp, price: u64, strategy: &str) -> (r: Option<Order>)
        ensures
            match old(self)@.current_stock {
                Some(stock) => {
                    &&& r matches Some(o) && order_matches(
                        o,
                        now,
                        stock,
                        OrderIntent {
                            side: OrderSide::Sell,
                            quantity: old(self)@.remaining_size,
                            price,
                            strategy: strategy@,
                        },
                    )
                    &&& final(self)@ == sold_out(old(self)@)
                },
                None => r is None && final(self)@ == old(self)@,
            },
    {
        proof {
            use_type_invariant(&*self);
        }
        match &self.current_stock {
            Some(stock_code) => {
                let order = Order {
                    date: now,
                    stockcode: stock_code.clone(),
                    side: OrderSide::Sell,
                    quantity: self.remaining_size,
                    price,
                    fee: 0,
                    strategy: strategy.to_owned(),
                };
                self.remaining_size = 0;
                self.state = TradingState::Closed;
                Some(order)
            },
            None => None,
        }
    }

    /// Sells half of what is left (rounded down) at `price`, naming the rule
    /// `strategy`.
    fn create_sell_half_order(&mut self, now: Timestamp, price: u64, strategy: &str) -> (r: Option<Order>)
        ensures
            match old(self)@.current_stock {
                Some(stock) => {
                    &&& r matches Some(o) && order_matches(
                        o,
                        now,
                        stock,
                        OrderIntent {
                            side: OrderSide::Sell,
                            quantity: old(self)@.remaining_size / 2,
                            price,
                            strategy: strategy@,
                        },
                    )
                    &&& final(self)@ == (JoonwooView {
                        remaining_size: (old(self)@.remaining_size - old(self)@.remaining_size / 2) as u32,
                        ..old(self)@
                    })
                },
                None => r is None && final(self)@ == old(self)@,
            },
    {
        proof {
            use_type_invariant(&*self);
        }
        match &self.current_stock {
            Some(stock_code) => {
                let sell_quantity = self.remaining_size / 2;
                let order = Order {
                    date: now,
                    stockcode: stock_code.clone(),
                    side: OrderSide::Sell,
                    quantity: sell_quantity,
                    price,
                    fee: 0,
                    strategy: strategy.to_owned(),
                };
                self.remaining_size = self.remaining_size - sell_quantity;
                Some(order)
            },
            None => None,
        }
    }

    /// Sells the rest of the position at `price`, naming the rule `strategy`.
    fn create_sell_remaining_order(&mut self, now: Timestamp, price: u64, strategy: &str) -> (r: Option<
        Order,
    >)
        ensures
            match old(self)@.current_stock {
                Some(stock) => {
                    &&& r matches Some(o) && order_matches(
                        o,
                        now,
                        stock,
                        OrderIntent {
                            side: OrderSide::Sell,
                            quantity: old(self)@.remaining_size,
                            price,
                            strategy: strategy@,
                        },
                    )
                    &&& final(self)@ == sold_out(old(self)@)
                },
                None => r is None && final(self)@ == old(self)@,
            },
    {
        proof {
            use_type_invariant(&*self);
        }
        match &self.current_stock {
            Some(stock_code) => {
                let order = Order {
                    date: now,
                    stockcode: stock_code.clone(),
                    side: OrderSide::Sell,
                    quantity: self.remaining_size,
                    price,
                    fee: 0,
                    strategy: strategy.to_owned(),
                };
                self.remaining_size = 0;
                self.state = TradingState::Closed;
                Some(order)
            },
            None => None,
        }
    }

    /// The exit rules applied to a held position at `price`.
    pub fn exit_decision(&mut self, now: Timestamp, price: u64) -> (r: Option<Order>)
        requires
            old(self)@.current_stock is Some,
        ensures
            final(self)@ == joonwoo_exit_spec(old(self)@, price).0,
            match joonwoo_exit_spec(old(self)@, price).1 {
                Some(intent) => r matches Some(o) && order_matches(
                    o,
                    now,
                    old(self)@.current_stock.unwrap(),
                    intent,
                ),
                None => r is None,
            },
    {
        proof {
            use_type_invariant(&*self);
        }
        if rate_is_at_most(price, self.entry_price, -(self.stop_loss_pct as i128)) {
            return self.create_sell_all_order(now, price, "joonwoo_stop_loss");
        }
        if rate_is_at_least(price, self.entry_price, self.take_profit_pct as i128) && self.state
            == TradingState::Holding {
            self.highest_price_after_2pct = Some(price);
            self.state = TradingState::PartialSold;
            return self.create_sell_half_order(now, price, "joonwoo_take_profit_half");
        }
        if self.state == TradingState::PartialSold {
            if let Some(highest_price) = self.highest_price_after_2pct {
                let updated_highest = if price > highest_price {
                    price
                } else {
                    highest_price
                };
                self.highest_price_after_2pct = Some(updated_highest);
                if rate_is_at_most(price, updated_highest, -(self.trailing_stop_pct as i128)) {
                    return self.create_sell_remaining_order(now, price, "joonwoo_trailing_stop");
                }
            }
        }
        None
    }

    /// Between entry and close-out, with shares held: reads the price now
    /// and applies the exit rules.
    pub fn check_exit_conditions<A: StockApi>(&mut self, apis: &ApiBundle<A>, now: Timestamp) -> (r:
        StockrsResult<Option<Order>>)
        requires
            now.wf(),
        ensures
            old(self)@.current_stock is None || old(self)@.remaining_size == 0 ==> r == Ok::<
                Option<Order>,
                StockrsError,
            >(None) && final(self)@ == old(self)@,
            r is Err ==> final(self)@ == old(self)@,
            r matches Ok(x) ==> tick_effect(old(self)@, final(self)@, x, now),
            r matches Ok(Some(o)) ==> o.side == OrderSide::Sell,
            r matches Ok(Some(o)) ==> price_at_time_answer(apis, o.stockcode@, ymdhm_text(now), Ok(o.price)),
    {
        proof {
            use_type_invariant(&*self);
        }
        if self.current_stock.is_none() || self.remaining_size == 0 {
            return Ok(None);
        }
        let current_time_str = format_ymdhm(&now);
        let current_price = {
            let stock_code = self.current_stock.as_ref().unwrap();
            let answer = apis.get_current_price_at_time(stock_code.as_str(), current_time_str.as_str());
            assert(price_at_time_answer(apis, stock_code@, ymdhm_text(now), answer));
            answer?
        };
        Ok(self.exit_decision(now, current_price))
    }

    /// At the close-out minute, with shares held: sells everything at the
    /// price now.
    pub fn force_close_all<A: StockApi>(
        &mut self,
        apis: &ApiBundle<A>,
        now: Timestamp,
        special_offset: Option<i32>,
    ) -> (r: StockrsResult<Option<Order>>)
        requires
            now.wf(),
        ensures
            old(self)@.current_stock is None || old(self)@.remaining_size == 0 ==> r == Ok::<
                Option<Order>,
                StockrsError,
            >(None) && final(self)@ == old(self)@,
            r is Err ==> final(self)@ == old(self)@,
            r matches Ok(None) ==> final(self)@ == old(self)@,
            old(self)@.current_stock is Some && old(self)@.remaining_size > 0 ==> match scheduled_hm_spec(
                old(self)@.force_close_time_str,
                special_offset,
            ) {
                None => r is Err,
                Some(hm) => now.hour == hm.0 && now.minute == hm.1 ==> r is Err || r matches Ok(
                    Some(_),
                ),
            },
            r matches Ok(Some(o)) ==> {
                &&& o.side == OrderSide::Sell
                &&& o.quantity == old(self)@.remaining_size
                &&& o.strategy@ == "joonwoo_time_stop"@
                &&& price_at_time_answer(apis, o.stockcode@, ymdhm_text(now), Ok(o.price))
                &&& final(self)@ == sold_out(old(self)@)
                &&& tick_effect(old(self)@, final(self)@, Some(o), now)
            },
    {
        proof {
            use_type_invariant(&*self);
        }
        if self.current_stock.is_none() || self.remaining_size == 0 {
            return Ok(None);
        }
        let (close_hour, close_minute) = self.get_force_close_time_for_today(special_offset)?;
        if now.hour == close_hour && now.minute == close_minute {
            let current_time_str = format_ymdhm(&now);
            let current_price = {
                let stock_code = self.current_stock.as_ref().unwrap();
                let answer = apis.get_current_price_at_time(
                    stock_code.as_str(),
                    current_time_str.as_str(),
                );
                assert(price_at_time_answer(apis, stock_code@, ymdhm_text(now), answer));
                answer?
            };
            return Ok(self.create_sell_all_order(now, current_price, "joonwoo_time_stop"));
        }
        Ok(None)
    }
}

impl Model for JoonwooModel {
    fn on_start(&mut self) -> (r: StockrsResult<()>)
        ensures
            r is Ok,
            final(self)@ == (JoonwooView { state: TradingState::WaitingForEntry, ..old(self)@ }),
    {
        proof {
            use_type_invariant(&*self);
        }
        self.state = TradingState::WaitingForEntry;
        Ok(())
    }

    fn on_event<A: StockApi, C: MarketContext>(
        &mut self,
        apis: &ApiBundle<A>,
        ctx: &mut C,
        now: Timestamp,
        special_offset: Option<i32>,
    ) -> (r: StockrsResult<Option<Order>>)
        ensures
            r is Err ==> final(self)@ == old(self)@,
            r matches Ok(x) ==> tick_effect(old(self)@, final(self)@, x, now),
            joonwoo_phase(old(self)@, now, special_offset) == JoonwooPhase::Idle ==> r == Ok::<
                Option<Order>,
                StockrsError,
            >(None) && final(self)@ == old(self)@,
            old(self)@.state == TradingState::Closed ==> r == Ok::<Option<Order>, StockrsError>(None)
                && final(self)@ == old(self)@,
            r matches Ok(Some(o)) ==> price_at_time_answer(apis, o.stockcode@, ymdhm_text(now), Ok(o.price)),
            r matches Ok(Some(o)) ==> (o.side == OrderSide::Buy ==> classifier_picked(
                *old(ctx),
                ymd_text(now),
                o.stockcode@,
            )),
            r matches Ok(Some(o)) ==> (o.side == OrderSide::Buy ==> exists|b: AssetInfo|
                #![trigger balance_answer(apis, Ok::<AssetInfo, StockrsError>(b))]
                balance_answer(apis, Ok::<AssetInfo, StockrsError>(b)) && o.quantity
                    == affordable_quantity(b.asset, old(self)@.entry_asset_ratio, o.price)),
    {
        proof {
            use_type_invariant(&*self);
        }
        match self.event_phase(now, special_offset) {
            JoonwooPhase::Entry => self.try_entry(apis, ctx, now, special_offset),
            JoonwooPhase::ForceClose => self.force_close_all(apis, now, special_offset),
            JoonwooPhase::CheckExit => self.check_exit_conditions(apis, now),
            JoonwooPhase::Idle => Ok(None),
        }
    }

    fn on_end(&mut self) -> (r: StockrsResult<()>)
        ensures
            r is Ok,
            final(self)@ == old(self)@,
    {
        proof {
            use_type_invariant(&*self);
        }
        Ok(())
    }

    fn reset_for_new_day(&mut self) -> (r: StockrsResult<()>)
        ensures
            r is Ok,
            final(self)@.is_fresh(),
            final(self)@.same_settings(old(self)@),
    {
        proof {
            use_type_invariant(&*self);
        }
        self.remaining_size = 0;
        self.state = TradingState::WaitingForEntry;
        self.current_stock = None;
        self.position_size = 0;
        self.entry_price = 0;
        self.entry_time = None;
        self.highest_price_after_2pct = None;
        Ok(())
    }
}

} // verus!

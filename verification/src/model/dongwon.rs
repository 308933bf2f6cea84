//! The dongwon strategy: buys a fixed quantity of one stock at the entry
//! minute and sells all of it at the exit minute.
use vstd::prelude::*;
use crate::api::StockApi;
use crate::clock::{format_ymdhm, parse_hm_spec, ymdhm_text};
use crate::error::{StockrsError, StockrsResult};
use crate::model::{price_answer, ApiBundle, MarketContext, Model};
use crate::types::{order_matches, Order, OrderIntent, OrderSide, Timestamp};

verus! {

/// The configurable part of the strategy.
pub struct DongwonSettings {
    /// The stock traded; empty keeps the built-in one.
    pub stockcode: String,
    /// Entry time, `HH:MM:SS`; empty keeps the built-in one.
    pub entry_time: String,
    /// Exit time, `HH:MM:SS`; empty keeps the built-in one.
    pub exit_time: String,
    /// Shares bought; zero keeps the built-in quantity.
    pub quantity: u32,
}

/// The dongwon strategy's state.
pub struct DongwonModel {
    stockcode: String,
    entry_time: String,
    exit_time: String,
    quantity: u32,
    holding_qty: u32,
}

/// The strategy's state as values.
pub struct DongwonView {
    pub stockcode: Seq<char>,
    pub entry_time: Seq<char>,
    pub exit_time: Seq<char>,
    pub quantity: u32,
    pub holding_qty: u32,
}

impl View for DongwonModel {
    type V = DongwonView;

    closed spec fn view(&self) -> DongwonView {
        DongwonView {
            stockcode: self.stockcode@,
            entry_time: self.entry_time@,
            exit_time: self.exit_time@,
            quantity: self.quantity,
            holding_qty: self.holding_qty,
        }
    }
}

/// The built-in settings: Samsung Electronics, 09:10:00 in, 15:15:00 out,
/// one share.
pub open spec fn dongwon_defaults() -> DongwonView {
    DongwonView {
        stockcode: "005930"@,
        entry_time: "09:10:00"@,
        exit_time: "15:15:00"@,
        quantity: 1,
        holding_qty: 0,
    }
}

/// The settings after the configured values that are present replace the
/// built-in ones.
pub open spec fn dongwon_configured(c: DongwonSettings) -> DongwonView {
    let d = dongwon_defaults();
    DongwonView {
        stockcode: if c.stockcode@.len() > 0 { c.stockcode@ } else { d.stockcode },
        entry_time: if c.entry_time@.len() > 0 { c.entry_time@ } else { d.entry_time },
        exit_time: if c.exit_time@.len() > 0 { c.exit_time@ } else { d.exit_time },
        quantity: if c.quantity > 0 { c.quantity } else { d.quantity },
        holding_qty: 0,
    }
}

/// Whether the tick at `now` falls on the minute a `HH:MM:SS` string names.
pub open spec fn at_minute(s: Seq<char>, now: Timestamp) -> bool {
    match parse_hm_spec(s) {
        Some(hm) => now.hour == hm.0 && now.minute == hm.1,
        None => false,
    }
}

impl Default for DongwonModel {
    fn default() -> (r: Self)
        ensures
            r@ == dongwon_defaults(),
    {
        DongwonModel {
            stockcode: String::from_str("005930"),
            entry_time: String::from_str("09:10:00"),
            exit_time: String::from_str("15:15:00"),
            quantity: 1,
            holding_qty: 0,
        }
    }
}

impl DongwonModel {
    /// The strategy with the built-in settings, each replaced by the
    /// configured value where one is given.
    pub fn new(settings: Option<DongwonSettings>) -> (r: Self)
        ensures
            match settings {
                Some(c) => r@ == dongwon_configured(c),
                None => r@ == dongwon_defaults(),
            },
            r@.holding_qty == 0,
            settings matches Some(c) ==> {
                &&& c.stockcode@.len() > 0 ==> r@.stockcode == c.stockcode@
                &&& c.stockcode@.len() == 0 ==> r@.stockcode == "005930"@
                &&& c.entry_time@.len() > 0 ==> r@.entry_time == c.entry_time@
                &&& c.entry_time@.len() == 0 ==> r@.entry_time == "09:10:00"@
                &&& c.exit_time@.len() > 0 ==> r@.exit_time == c.exit_time@
                &&& c.exit_time@.len() == 0 ==> r@.exit_time == "15:15:00"@
                &&& c.quantity > 0 ==> r@.quantity == c.quantity
                &&& c.quantity == 0 ==> r@.quantity == 1
            },
            settings is None ==> r@.stockcode == "005930"@ && r@.entry_time == "09:10:00"@
                && r@.exit_time == "15:15:00"@ && r@.quantity == 1,
    {
        let mut s = Self::default();
        if let Some(cfg) = settings {
            if cfg.stockcode.as_str().unicode_len() > 0 {
                s.stockcode = cfg.stockcode;
            }
            if cfg.entry_time.as_str().unicode_len() > 0 {
                s.entry_time = cfg.entry_time;
            }
            if cfg.exit_time.as_str().unicode_len() > 0 {
                s.exit_time = cfg.exit_time;
            }
            if cfg.quantity > 0 {
                s.quantity = cfg.quantity;
            }
        }
        s
    }

    /// Shares held.
    pub fn holding_qty(&self) -> (r: u32)
        ensures
            r == self@.holding_qty,
    {
        self.holding_qty
    }

    /// Reads the hour and minute of a `HH:MM:SS` string.
    pub fn parse_hm(s: &str) -> (r: StockrsResult<(u32, u32)>)
        ensures
            match parse_hm_spec(s@) {
                Some(hm) => r == Ok::<(u32, u32), StockrsError>(hm),
                None => r is Err,
            },
    {
        crate::clock::parse_time_string(s)
    }

    /// Buys the configured quantity at `price`, unless it is zero.
    pub fn entry_order(&mut self, now: Timestamp, price: u64) -> (r: Option<Order>)
        ensures
            old(self)@.quantity == 0 ==> r is None && final(self)@ == old(self)@,
            old(self)@.quantity > 0 ==> {
                &&& r matches Some(o) && order_matches(
                    o,
                    now,
                    old(self)@.stockcode,
                    OrderIntent {
                        side: OrderSide::Buy,
                        quantity: old(self)@.quantity,
                        price,
                        strategy: "dongwon_entry"@,
                    },
                )
                &&& final(self)@ == (DongwonView { holding_qty: old(self)@.quantity, ..old(self)@ })
            },
    {
        let qty = self.quantity;
        if qty == 0 {
            return None;
        }
        let order = Order {
            date: now,
            stockcode: self.stockcode.clone(),
            side: OrderSide::Buy,
            quantity: qty,
            price,
            fee: 0,
            strategy: String::from_str("dongwon_entry"),
        };
        self.holding_qty = qty;
        Some(order)
    }

    /// Sells everything held at `price`.
    pub fn exit_order(&mut self, now: Timestamp, price: u64) -> (r: Order)
        ensures
            order_matches(
                r,
                now,
                old(self)@.stockcode,
                OrderIntent {
                    side: OrderSide::Sell,
                    quantity: old(self)@.holding_qty,
                    price,
                    strategy: "dongwon_exit"@,
                },
            ),
            final(self)@ == (DongwonView { holding_qty: 0, ..old(self)@ }),
    {
        let qty = self.holding_qty;
        let order = Order {
            date: now,
            stockcode: self.stockcode.clone(),
            side: OrderSide::Sell,
            quantity: qty,
            price,
            fee: 0,
            strategy: String::from_str("dongwon_exit"),
        };
        self.holding_qty = 0;
        order
    }

    /// At the entry minute with nothing held: reads the price now and buys.
    pub fn try_entry<A: StockApi>(&mut self, apis: &ApiBundle<A>, now: Timestamp) -> (r: StockrsResult<
        Option<Order>,
    >)
        requires
            now.wf(),
        ensures
            old(self)@.holding_qty > 0 ==> (r == Ok::<Option<Order>, StockrsError>(None) && final(self)@ == old(self)@),
            old(self)@.holding_qty == 0 ==> match parse_hm_spec(old(self)@.entry_time) {
                None => r is Err && final(self)@ == old(self)@,
                Some(hm) => (now.hour != hm.0 || now.minute != hm.1) ==> r == Ok::<
                    Option<Order>,
                    StockrsError,
                >(None) && final(self)@ == old(self)@,
            },
            r is Err ==> final(self)@ == old(self)@,
            r matches Ok(None) ==> final(self)@ == old(self)@,
            old(self)@.holding_qty == 0 && at_minute(old(self)@.entry_time, now)
                && old(self)@.quantity > 0 ==> r is Err || r matches Ok(Some(_)),
            r matches Ok(Some(o)) ==> {
                &&& old(self)@.holding_qty == 0
                &&& at_minute(old(self)@.entry_time, now)
                &&& o.side == OrderSide::Buy
                &&& o.date == now
                &&& o.stockcode@ == old(self)@.stockcode
                &&& o.quantity == old(self)@.quantity
                &&& o.quantity > 0
                &&& final(self)@ == (DongwonView { holding_qty: o.quantity, ..old(self)@ })
                &&& price_answer(apis, old(self)@.stockcode, ymdhm_text(now), Ok(o.price))
            },
    {
        if self.holding_qty > 0 {
            return Ok(None);
        }
        let (eh, em) = Self::parse_hm(self.entry_time.as_str())?;
        if now.hour == eh && now.minute == em {
            let current_time_str = format_ymdhm(&now);
            let code = self.stockcode.as_str();
            let time = current_time_str.as_str();
            let answer = apis.get_current_price(code, time);
            assert(price_answer(apis, self@.stockcode, ymdhm_text(now), answer));
            let price = answer?;
            return Ok(self.entry_order(now, price));
        }
        Ok(None)
    }

    /// At the exit minute with shares held: reads the price now and sells
    /// them all.
    pub fn try_exit<A: StockApi>(&mut self, apis: &ApiBundle<A>, now: Timestamp) -> (r: StockrsResult<
        Option<Order>,
    >)
        requires
            now.wf(),
        ensures
            old(self)@.holding_qty == 0 ==> (r == Ok::<Option<Order>, StockrsError>(None) && final(self)@ == old(self)@),
            old(self)@.holding_qty > 0 ==> match parse_hm_spec(old(self)@.exit_time) {
                None => r is Err && final(self)@ == old(self)@,
                Some(hm) => (now.hour != hm.0 || now.minute != hm.1) ==> r == Ok::<
                    Option<Order>,
                    StockrsError,
                >(None) && final(self)@ == old(self)@,
            },
            r is Err ==> final(self)@ == old(self)@,
            r matches Ok(None) ==> final(self)@ == old(self)@,
            old(self)@.holding_qty > 0 && at_minute(old(self)@.exit_time, now) ==> r is Err
                || r matches Ok(Some(_)),
            r matches Ok(Some(o)) ==> {
                &&& old(self)@.holding_qty > 0
                &&& at_minute(old(self)@.exit_time, now)
                &&& o.side == OrderSide::Sell
                &&& o.date == now
                &&& o.stockcode@ == old(self)@.stockcode
                &&& o.quantity == old(self)@.holding_qty
                &&& final(self)@ == (DongwonView { holding_qty: 0, ..old(self)@ })
                &&& price_answer(apis, old(self)@.stockcode, ymdhm_text(now), Ok(o.price))
            },
    {
        if self.holding_qty == 0 {
            return Ok(None);
        }
        let (xh, xm) = Self::parse_hm(self.exit_time.as_str())?;
        if now.hour == xh && now.minute == xm {
            let current_time_str = format_ymdhm(&now);
            let code = self.stockcode.as_str();
            let time = current_time_str.as_str();
            let answer = apis.get_current_price(code, time);
            assert(price_answer(apis, self@.stockcode, ymdhm_text(now), answer));
            let price = answer?;
            return Ok(Some(self.exit_order(now, price)));
        }
        Ok(None)
    }
}

impl Model for DongwonModel {
    fn on_start(&mut self) -> (r: StockrsResult<()>)
        ensures
            r is Ok,
            final(self)@ == old(self)@,
    {
        Ok(())
    }

    fn on_event<A: StockApi, C: MarketContext>(
        &mut self,
        apis: &ApiBundle<A>,
        ctx: &mut C,
        now: Timestamp,
        special_offset: Option<i32>,
    ) -> (r: StockrsResult<Option<Order>>)
        ensures
            r is Err ==> final(self)@ == old(self)@,
            old(self)@.holding_qty > 0 ==> match parse_hm_spec(old(self)@.exit_time) {
                None => r is Err,
                Some(hm) => (now.hour != hm.0 || now.minute != hm.1) ==> r == Ok::<
                    Option<Order>,
                    StockrsError,
                >(None) && final(self)@ == old(self)@,
            },
            old(self)@.holding_qty == 0 ==> match parse_hm_spec(old(self)@.entry_time) {
                None => r is Err,
                Some(hm) => (now.hour != hm.0 || now.minute != hm.1) ==> r == Ok::<
                    Option<Order>,
                    StockrsError,
                >(None) && final(self)@ == old(self)@,
            },
            r matches Ok(None) ==> final(self)@ == old(self)@,
            r matches Ok(Some(o)) ==> match o.side {
                OrderSide::Sell => o.quantity == old(self)@.holding_qty && final(self)@.holding_qty
                    == 0 && o.quantity > 0 && at_minute(old(self)@.exit_time, now),
                OrderSide::Buy => old(self)@.holding_qty == 0 && final(self)@.holding_qty
                    == o.quantity && o.quantity > 0 && o.quantity == old(self)@.quantity
                    && at_minute(old(self)@.entry_time, now),
            },
            r matches Ok(Some(o)) ==> final(self)@ == (DongwonView {
                holding_qty: final(self)@.holding_qty,
                ..old(self)@
            }),
            old(self)@.holding_qty == 0 && at_minute(old(self)@.entry_time, now)
                && old(self)@.quantity > 0 ==> r is Err || r matches Ok(Some(_)),
            old(self)@.holding_qty > 0 && at_minute(old(self)@.exit_time, now) ==> r is Err
                || r matches Ok(Some(_)),
            r matches Ok(Some(o)) ==> o.date == now && o.stockcode@ == old(self)@.stockcode,
            r matches Ok(Some(o)) ==> price_answer(apis, old(self)@.stockcode, ymdhm_text(now), Ok(o.price)),
    {
        if let Some(o) = self.try_exit(apis, now)? {
            return Ok(Some(o));
        }
        if let Some(o) = self.try_entry(apis, now)? {
            return Ok(Some(o));
        }
        Ok(None)
    }

    fn on_end(&mut self) -> (r: StockrsResult<()>)
        ensures
            r is Ok,
            final(self)@ == old(self)@,
    {
        Ok(())
    }

    fn reset_for_new_day(&mut self) -> (r: StockrsResult<()>)
        ensures
            r is Ok,
            final(self)@ == (DongwonView { holding_qty: 0, ..old(self)@ }),
    {
        self.holding_qty = 0;
        Ok(())
    }
}

} // verus!

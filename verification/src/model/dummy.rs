//! A model for exercising a runner: it sends one order on its third tick
//! and stops the run on its fifth.
use vstd::prelude::*;
use crate::api::StockApi;
use crate::error::{StockrsError, StockrsResult};
use crate::model::{ApiBundle, MarketContext, Model};
use crate::types::{Order, OrderSide, Timestamp};

verus! {

/// The tick on which the model orders.
pub const ORDER_TICK: u32 = 3;

/// The tick from which the model stops the run.
pub const STOP_TICK: u32 = 5;

/// The time stamped on the test order: 2022-01-01 00:00:00.
pub open spec fn test_order_time() -> Timestamp {
    Timestamp { year: 2022, month: 1, day: 1, hour: 0, minute: 0, second: 0 }
}

/// A model that counts its ticks.
pub struct DummyModel {
    call_count: u32,
}

impl DummyModel {
    /// A model that has seen no tick.
    pub fn new() -> (r: Self)
        ensures
            r.calls() == 0,
    {
        DummyModel { call_count: 0 }
    }

    /// The ticks seen so far.
    pub closed spec fn calls(&self) -> u32 {
        self.call_count
    }

    /// The ticks seen so far.
    pub fn call_count(&self) -> (r: u32)
        ensures
            r == self.calls(),
    {
        self.call_count
    }
}

impl Model for DummyModel {
    fn on_start(&mut self) -> (r: StockrsResult<()>)
        ensures
            r is Ok,
            final(self).calls() == old(self).calls(),
    {
        Ok(())
    }

    fn on_event<A: StockApi, C: MarketContext>(
        &mut self,
        apis: &ApiBundle<A>,
        ctx: &mut C,
        now: Timestamp,
        special_offset: Option<i32>,
    ) -> (r: StockrsResult<Option<Order>>)
        ensures
            final(self).calls() == if old(self).calls() == u32::MAX {
                u32::MAX
            } else {
                (old(self).calls() + 1) as u32
            },
            final(self).calls() == ORDER_TICK ==> (r matches Ok(Some(o)) && {
                &&& o.date == test_order_time()
                &&& o.stockcode@ == "005930"@
                &&& o.side == OrderSide::Buy
                &&& o.quantity == 1
                &&& o.price == 70_000
                &&& o.fee == 100
                &&& o.strategy@ == "DummyTest"@
            }),
            final(self).calls() >= STOP_TICK ==> r is Err,
            final(self).calls() != ORDER_TICK && final(self).calls() < STOP_TICK ==> r == Ok::<
                Option<Order>,
                StockrsError,
            >(None),
    {
        if self.call_count < u32::MAX {
            self.call_count = self.call_count + 1;
        }
        if self.call_count == ORDER_TICK {
            let order = Order {
                date: Timestamp { year: 2022, month: 1, day: 1, hour: 0, minute: 0, second: 0 },
                stockcode: String::from_str("005930"),
                side: OrderSide::Buy,
                quantity: 1,
                price: 70_000,
                fee: 100,
                strategy: String::from_str("DummyTest"),
            };
            return Ok(Some(order));
        }
        if self.call_count >= STOP_TICK {
            return Err(StockrsError::General { message: String::from_str("Test complete") });
        }
        Ok(None)
    }

    fn on_end(&mut self) -> (r: StockrsResult<()>)
        ensures
            r is Ok,
            final(self).calls() == old(self).calls(),
    {
        Ok(())
    }

    fn reset_for_new_day(&mut self) -> (r: StockrsResult<()>)
        ensures
            r is Ok,
            final(self).calls() == old(self).calls(),
    {
        Ok(())
    }
}

} // verus!

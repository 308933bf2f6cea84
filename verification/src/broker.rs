//! The broker: checks orders, sends them, records fills at once when
//! backtesting, and otherwise keeps them pending until the broker reports
//! them fully filled.
use vstd::prelude::*;
use std::collections::VecDeque;
use std::rc::Rc;
use crate::api::{ApiKind, FillInfo, StockApi};
use crate::error::{StockrsError, StockrsResult};
use crate::text::str_equals;
use crate::types::{AssetInfo, Order, OrderSide, TradingMode};

verus! {

/// Where filled trades are recorded.
pub trait TradeLedger {
    /// Records a filled order with the average price the profit is measured
    /// against.
    fn save_trading(&mut self, order: &Order, avg_price: u64) -> StockrsResult<()>;
}

/// An order sent in real or paper mode and not yet recorded.
pub struct PendingOrder {
    pub order_id: String,
    pub order: Order,
    /// For a sell, the average purchase price read before sending it.
    pub pre_sell_avg: Option<u64>,
}

/// The broker.
pub struct StockBroker<A: StockApi> {
    api: Rc<A>,
    trading_mode: TradingMode,
    pending_orders: VecDeque<PendingOrder>,
    saved: Ghost<Seq<(Order, u64)>>,
}

/// The trading mode a `default_mode` setting names; backtesting for any
/// other value and when the settings could not be read.
pub open spec fn mode_from_setting(default_mode: Option<Seq<char>>) -> TradingMode {
    match default_mode {
        Some(m) => if m == "real"@ {
            TradingMode::Real
        } else if m == "paper"@ {
            TradingMode::Paper
        } else {
            TradingMode::Backtest
        },
        None => TradingMode::Backtest,
    }
}

/// An order with a stock code, at least one share and a positive price.
pub open spec fn order_basic_valid(o: Order) -> bool {
    o.stockcode@.len() > 0 && o.quantity > 0 && o.price > 0
}

/// The buying fee rate: 0.015%, as a fraction of 100,000.
pub open spec fn fee_rate_per_100000() -> int {
    15
}

/// Whether `asset` won cover the order's amount plus the 0.015% fee.
pub open spec fn covers_order(asset: u64, o: Order) -> bool {
    asset * 100000 >= (o.price * o.quantity) * (100000 + fee_rate_per_100000())
}

/// What becomes of a pending order, given what the fill inquiry answered.
pub enum PendingAction {
    /// Fully filled: record it with this average price.
    Record { avg_price: u64 },
    /// Not (fully) filled yet: keep it.
    Keep,
    /// The inquiry failed: stop and keep everything.
    Abort,
}

/// What becomes of `item`, given the fill inquiry's answer.
pub open spec fn pending_action_spec(item: PendingOrder, answer: StockrsResult<Option<FillInfo>>) -> PendingAction {
    match answer {
        Ok(Some(info)) => if info.rmn_qty == 0 {
            PendingAction::Record {
                avg_price: if item.order.side == OrderSide::Buy {
                    info.avg_prvs
                } else {
                    match item.pre_sell_avg {
                        Some(a) => a,
                        None => info.avg_prvs,
                    }
                },
            }
        } else {
            PendingAction::Keep
        },
        Ok(None) => PendingAction::Keep,
        Err(_) => PendingAction::Abort,
    }
}

/// What becomes of `item`, given the fill inquiry's answer: a full fill is
/// recorded at the fill's average price for a buy and at the average
/// purchase price read before sending for a sell.
pub fn pending_action(item: &PendingOrder, answer: &StockrsResult<Option<FillInfo>>) -> (r: PendingAction)
    ensures
        r == pending_action_spec(*item, *answer),
{
    match answer {
        Ok(Some(info)) => {
            if info.rmn_qty == 0 {
                let avg_for_profit = if item.order.get_buy_or_sell() {
                    info.avg_prvs
                } else {
                    match item.pre_sell_avg {
                        Some(a) => a,
                        None => info.avg_prvs,
                    }
                };
                PendingAction::Record { avg_price: avg_for_profit }
            } else {
                PendingAction::Keep
            }
        },
        Ok(None) => PendingAction::Keep,
        Err(_) => PendingAction::Abort,
    }
}

/// `sub` keeps some of the items of `s`, in their order.
pub open spec fn subsequence_of<T>(sub: Seq<T>, s: Seq<T>) -> bool {
    exists|idx: Seq<int>| #[trigger] picks(idx, sub, s)
}

/// `idx` lists, in increasing order, the positions in `s` of the items of
/// `sub`.
pub open spec fn picks<T>(idx: Seq<int>, sub: Seq<T>, s: Seq<T>) -> bool {
    &&& idx.len() == sub.len()
    &&& forall|i: int, j: int| 0 <= i < j < idx.len() ==> idx[i] < idx[j]
    &&& forall|i: int| 0 <= i < idx.len() ==> 0 <= #[trigger] idx[i] < s.len() && sub[i] == s[idx[i]]
}

/// The average price a filled backtest order is recorded at: for a buy, the
/// average purchase price read after the fill, or 0 when that read failed;
/// for a sell, the average purchase price read before the order was sent.
pub open spec fn recorded_avg_spec(side: OrderSide, pre_sell: u64, post_buy: Option<u64>) -> u64 {
    match side {
        OrderSide::Buy => match post_buy {
            Some(p) => p,
            None => 0,
        },
        OrderSide::Sell => pre_sell,
    }
}

/// The average price a filled backtest order is recorded at.
pub fn recorded_avg(side: OrderSide, pre_sell: u64, post_buy: Option<u64>) -> (r: u64)
    ensures
        r == recorded_avg_spec(side, pre_sell, post_buy),
{
    match side {
        OrderSide::Buy => match post_buy {
            Some(p) => p,
            None => 0,
        },
        OrderSide::Sell => pre_sell,
    }
}

/// The items of `q` whose flag in `leave` is off, in order.
pub open spec fn kept_items(q: Seq<PendingOrder>, leave: Seq<bool>) -> Seq<PendingOrder>
    decreases q.len(),
{
    if q.len() == 0 {
        Seq::empty()
    } else {
        let rest = kept_items(q.drop_last(), leave.drop_last());
        if leave.last() {
            rest
        } else {
            rest.push(q.last())
        }
    }
}

/// `ans` is an answer the interface gives to a fill inquiry about the
/// order of `item`.
pub open spec fn fill_info_answer<A: StockApi>(
    api: &A,
    item: PendingOrder,
    ans: StockrsResult<Option<FillInfo>>,
) -> bool {
    exists|s: &str|
        #![trigger s@]
        s@ == item.order_id@ && call_ensures(A::get_order_fill_info, (api, s), ans)
}

/// How one pending item fared in a pass: whether it was asked about and,
/// if so, the answer; it leaves only on a complete fill.
pub open spec fn item_decided<A: StockApi>(
    api: &A,
    item: PendingOrder,
    left: bool,
    asked: Option<StockrsResult<Option<FillInfo>>>,
) -> bool {
    match asked {
        Some(a) => {
            &&& fill_info_answer(api, item, a)
            &&& left ==> pending_action_spec(item, a) is Record
        },
        None => !left,
    }
}

/// The records a pass makes: for each leaving item, in order, its order at
/// the average price its fill answer gives.
pub open spec fn pass_records(
    q: Seq<PendingOrder>,
    leave: Seq<bool>,
    asked: Seq<Option<StockrsResult<Option<FillInfo>>>>,
) -> Seq<(Order, u64)>
    decreases q.len(),
{
    if q.len() == 0 {
        Seq::empty()
    } else {
        let rest = pass_records(q.drop_last(), leave.drop_last(), asked.drop_last());
        if leave.last() {
            match asked.last() {
                Some(a) => match pending_action_spec(q.last(), a) {
                    PendingAction::Record { avg_price } => rest.push((q.last().order, avg_price)),
                    _ => rest,
                },
                None => rest,
            }
        } else {
            rest
        }
    }
}

/// What a pass over the pending queue `before` did, given which items left
/// (`leave`) and the fill answers read (`asked`): the queue keeps the
/// others in order, and the ledger accepted, after what it held, a record
/// of each leaving item at the average price its answer gives.
pub open spec fn pending_pass(
    before: Seq<PendingOrder>,
    saved_before: Seq<(Order, u64)>,
    after: Seq<PendingOrder>,
    saved_after: Seq<(Order, u64)>,
    leave: Seq<bool>,
    asked: Seq<Option<StockrsResult<Option<FillInfo>>>>,
) -> bool {
    &&& leave.len() == before.len()
    &&& asked.len() == before.len()
    &&& after == kept_items(before, leave)
    &&& saved_before.len() <= saved_after.len()
    &&& saved_after.subrange(0, saved_before.len() as int) == saved_before
    &&& saved_after.subrange(saved_before.len() as int, saved_after.len() as int) == pass_records(
        before,
        leave,
        asked,
    )
}

/// How the fill answers decided a pass over `q`: each item left only on a
/// complete fill; only the brokerage's own interface is asked; a pass that
/// did not fail asked about every item and met no failed inquiry; a failed
/// pass stopped at its first failed inquiry and asked nothing after it.
pub open spec fn pass_answers<A: StockApi>(
    api: &A,
    q: Seq<PendingOrder>,
    leave: Seq<bool>,
    asked: Seq<Option<StockrsResult<Option<FillInfo>>>>,
    failed: bool,
) -> bool {
    &&& forall|i: int| 0 <= i < q.len() ==> item_decided(api, q[i], leave[i], #[trigger] asked[i])
    &&& api.kind() != ApiKind::Korea ==> !failed && forall|i: int| 0 <= i < q.len() ==> #[trigger] asked[i] is None
    &&& !failed && api.kind() == ApiKind::Korea ==> forall|i: int|
        0 <= i < q.len() ==> #[trigger] asked[i] is Some
    &&& !failed ==> forall|i: int|
        0 <= i < q.len() ==> !(#[trigger] asked[i] matches Some(a) && pending_action_spec(q[i], a) is Abort)
    &&& failed ==> exists|i: int|
        0 <= i < q.len() && (#[trigger] asked[i] matches Some(a) && pending_action_spec(q[i], a) is Abort)
            && (forall|j: int| 0 <= j < i ==> asked[j] is Some) && (forall|j: int|
            i < j < q.len() ==> asked[j] is None)
}

/// `ans` is an answer the interface gives to a balance inquiry.
pub open spec fn balance_answer<A: StockApi>(api: &A, ans: StockrsResult<AssetInfo>) -> bool {
    call_ensures(A::get_balance, (api,), ans)
}

/// `ans` is an answer the interface gives to an inquiry about the average
/// purchase price of the stock `code`.
pub open spec fn avg_price_answer<A: StockApi>(api: &A, code: Seq<char>, ans: StockrsResult<u64>) -> bool {
    exists|s: &str| #![trigger s@] s@ == code && call_ensures(A::get_avg_price, (api, s), ans)
}

/// `filled` is an answer the interface gives to a fill check.
pub open spec fn fill_answer<A: StockApi>(api: &A, filled: bool) -> bool {
    exists|s: &str| #![trigger s@] call_ensures(A::check_fill, (api, s), Ok::<bool, StockrsError>(filled))
}

/// What a backtest execution read: the fill check's answer `filled`; for an
/// order that was a sell when checked, the average purchase price `pre`
/// read before sending it (0 otherwise); and, once filled, for an order
/// that is a buy when sent, the average purchase price `post` read after it
/// (none when that read failed).
pub open spec fn backtest_reads<A: StockApi>(
    api: &A,
    checked: Order,
    sent: Order,
    filled: bool,
    pre: u64,
    post: Option<u64>,
) -> bool {
    &&& fill_answer(api, filled)
    &&& checked.side == OrderSide::Sell ==> avg_price_answer(api, checked.stockcode@, Ok(pre))
    &&& checked.side == OrderSide::Buy ==> pre == 0
    &&& filled && sent.side == OrderSide::Buy ==> match post {
        Some(p) => avg_price_answer(api, sent.stockcode@, Ok(p)),
        None => exists|e: StockrsError| #[trigger]
            avg_price_answer(api, sent.stockcode@, Err(e)),
    }
    &&& sent.side == OrderSide::Sell ==> post is None
}

/// Checks that `asset` won pay for a buy order and its fee.
pub fn check_funds(order: &Order, asset: u64) -> (r: StockrsResult<()>)
    ensures
        r is Ok <==> covers_order(asset, *order),
        r matches Err(e) ==> e is Validation,
{
    proof {
        assert((order.price as int) * (order.quantity as int) <= 0xffff_ffff_ffff_ffff * 0xffff_ffff)
            by (nonlinear_arith)
            requires
                0 <= order.price <= 0xffff_ffff_ffff_ffff,
                0 <= order.quantity <= 0xffff_ffff,
        ;
    }
    let amount: u128 = order.price as u128 * order.quantity as u128;
    let total_scaled: u128 = amount * 100015;
    let asset_scaled: u128 = asset as u128 * 100000;
    if asset_scaled < total_scaled {
        return Err(
            StockrsError::Validation {
                message: String::from_str("잔고 부족"),
            },
        );
    }
    Ok(())
}

impl<A: StockApi> StockBroker<A> {
    /// The broker for `api`, in the mode the `default_mode` setting names.
    pub fn new(api: Rc<A>, default_mode: Option<&str>) -> (r: Self)
        ensures
            r.api_spec() == api,
            r.mode() == mode_from_setting(
                match default_mode {
                    Some(m) => Some(m@),
                    None => None,
                },
            ),
            r.pending()@.len() == 0,
            r.saved().len() == 0,
    {
        let trading_mode = match default_mode {
            Some(m) => {
                if str_equals(m, "real") {
                    TradingMode::Real
                } else if str_equals(m, "paper") {
                    TradingMode::Paper
                } else {
                    TradingMode::Backtest
                }
            },
            None => TradingMode::Backtest,
        };
        StockBroker { api, trading_mode, pending_orders: VecDeque::new(), saved: Ghost(Seq::empty()) }
    }

    /// The interface the broker sends orders to.
    pub closed spec fn api_spec(&self) -> Rc<A> {
        self.api
    }

    /// The broker's mode.
    pub closed spec fn mode(&self) -> TradingMode {
        self.trading_mode
    }

    /// The orders sent and not yet recorded, oldest first.
    pub closed spec fn pending(&self) -> VecDeque<PendingOrder> {
        self.pending_orders
    }

    /// The trades this broker has handed to a ledger and the ledger
    /// accepted, each with its average price, oldest first.
    pub closed spec fn saved(&self) -> Seq<(Order, u64)> {
        self.saved@
    }

    /// Hands a filled order to the ledger and notes it when accepted.
    fn record<L: TradeLedger>(&mut self, db: &mut L, order: &Order, avg_price: u64) -> (r: StockrsResult<()>)
        ensures
            final(self).api_spec() == old(self).api_spec(),
            final(self).mode() == old(self).mode(),
            final(self).pending() == old(self).pending(),
            r is Ok ==> final(self).saved() == old(self).saved().push((*order, avg_price)),
            r is Err ==> final(self).saved() == old(self).saved(),
    {
        let r = db.save_trading(order, avg_price);
        if r.is_ok() {
            self.saved = Ghost(self.saved@.push((*order, avg_price)));
        }
        r
    }

    /// The interface the broker sends orders to.
    pub fn get_api(&self) -> (r: &Rc<A>)
        ensures
            *r == self.api_spec(),
    {
        &self.api
    }

    /// The broker's mode.
    pub fn trading_mode(&self) -> (r: TradingMode)
        ensures
            r == self.mode(),
    {
        self.trading_mode
    }

    /// How many orders are pending.
    pub fn pending_len(&self) -> (r: usize)
        ensures
            r == self.pending()@.len(),
    {
        self.pending_orders.len()
    }

    /// Checks an order: a stock code, at least one share, a positive price;
    /// when backtesting, a buy must be covered by the balance with its fee
    /// and a sell must be of a stock held.
    pub fn validate(&self, order: &Order) -> (r: StockrsResult<()>)
        ensures
            !order_basic_valid(*order) ==> r matches Err(StockrsError::Validation { .. }),
            order_basic_valid(*order) && self.mode() != TradingMode::Backtest ==> r is Ok,
            r is Ok ==> order_basic_valid(*order),
            order_basic_valid(*order) && self.mode() == TradingMode::Backtest && order.side
                == OrderSide::Buy ==> exists|ans: StockrsResult<AssetInfo>|
                #[trigger] balance_answer(&*self.api_spec(), ans) && (r is Ok <==> (ans matches Ok(b)
                    && covers_order(b.asset, *order))),
            order_basic_valid(*order) && self.mode() == TradingMode::Backtest && order.side
                == OrderSide::Sell ==> exists|ans: StockrsResult<u64>|
                #[trigger] avg_price_answer(&*self.api_spec(), order.stockcode@, ans) && (r is Ok
                    <==> ans is Ok),
    {
        let stockcode = order.get_stockcode();
        let quantity = order.get_quantity();
        let price = order.get_price();
        let is_buy = order.get_buy_or_sell();
        if stockcode.is_empty() {
            return Err(
                StockrsError::Validation { message: String::from_str("종목코드가 비어있습니다.") },
            );
        }
        if quantity == 0 {
            return Err(
                StockrsError::Validation { message: String::from_str("주문 수량이 0입니다.") },
            );
        }
        if price == 0 {
            return Err(
                StockrsError::Validation {
                    message: String::from_str("주문 가격이 0 이하입니다."),
                },
            );
        }
        if self.trading_mode == TradingMode::Backtest {
            if is_buy {
                let answer = self.api.get_balance();
                let ghost seen = answer;
                assert(balance_answer(&*self.api, seen));
                match answer {
                    Ok(balance) => {
                        let funds = check_funds(order, balance.get_asset());
                        if funds.is_err() {
                            assert(!(seen matches Ok(b) && covers_order(b.asset, *order)));
                            assert(balance_answer(&*self.api_spec(), seen));
                            return funds;
                        }
                        assert(seen matches Ok(b) && covers_order(b.asset, *order));
                        assert(balance_answer(&*self.api_spec(), seen));
                    },
                    Err(_) => {
                        assert(balance_answer(&*self.api_spec(), seen));
                        return Err(
                            StockrsError::BalanceInquiry {
                                reason: String::from_str("잔고 조회 실패"),
                            },
                        );
                    },
                }
            } else {
                let answer = self.api.get_avg_price(stockcode);
                let ghost seen = answer;
                assert(avg_price_answer(&*self.api, order.stockcode@, seen));
                assert(avg_price_answer(&*self.api_spec(), order.stockcode@, seen));
                match answer {
                    Ok(_) => {
                        assert(seen is Ok);
                    },
                    Err(_) => {
                        assert(seen is Err);
                        return Err(
                            StockrsError::Validation {
                                message: String::from_str("보유하지 않은 종목을 매도할 수 없습니다"),
                            },
                        );
                    },
                }
            }
        }
        Ok(())
    }

    /// Checks and sends an order. When backtesting, a filled order is
    /// recorded at once; otherwise it joins the pending orders.
    pub fn execute<L: TradeLedger>(&mut self, order: &mut Order, db: &mut L) -> (r: StockrsResult<()>)
        ensures
            final(self).api_spec() == old(self).api_spec(),
            final(self).mode() == old(self).mode(),
            !order_basic_valid(*old(order)) ==> r is Err && *final(order) == *old(order),
            r is Ok ==> order_basic_valid(*old(order)),
            r is Err || old(self).mode() == TradingMode::Backtest ==> final(self).pending()@
                == old(self).pending()@,
            r is Ok && old(self).mode() != TradingMode::Backtest ==> {
                let added = final(self).pending()@.last();
                &&& final(self).pending()@ == old(self).pending()@.push(added)
                &&& added.order == *final(order)
                &&& (final(order).side == OrderSide::Buy <==> added.pre_sell_avg is None)
            },
            r is Err || old(self).mode() != TradingMode::Backtest ==> final(self).saved() == old(
                self,
            ).saved(),
            r is Ok && old(self).mode() == TradingMode::Backtest ==> exists|
                filled: bool,
                pre: u64,
                post: Option<u64>,
            |
                #[trigger] backtest_reads(&*old(self).api_spec(), *old(order), *final(order), filled, pre, post)
                    && (filled ==> final(self).saved() == old(self).saved().push(
                    (*final(order), recorded_avg_spec(final(order).side, pre, post)),
                )) && (!filled ==> final(self).saved() == old(self).saved()),
    {
        self.validate(order)?;
        let ghost checked = *order;
        let avg_price: u64 = if !order.get_buy_or_sell() {
            let code = order.get_stockcode();
            let answer = self.api.get_avg_price(code);
            assert(avg_price_answer(&*self.api, checked.stockcode@, answer));
            answer?
        } else {
            0
        };
        let order_id = self.api.execute_order(order)?;
        if self.trading_mode == TradingMode::Backtest {
            let id = order_id.as_str();
            let fill = self.api.check_fill(id);
            let filled = fill?;
            assert(fill_answer(&*self.api, filled));
            let post_buy = if filled && order.get_buy_or_sell() {
                let code = order.get_stockcode();
                let answer = self.api.get_avg_price(code);
                let ghost seen = answer;
                assert(avg_price_answer(&*self.api, order.stockcode@, seen));
                match answer {
                    Ok(p) => Some(p),
                    Err(e) => {
                        assert(avg_price_answer(&*self.api, order.stockcode@, Err(e)));
                        None
                    },
                }
            } else {
                None
            };
            assert(backtest_reads(&*self.api, checked, *order, filled, avg_price, post_buy));
            if filled {
                let final_avg_price = recorded_avg(order.side, avg_price, post_buy);
                self.record(db, order, final_avg_price)?;
            }
        } else {
            let item = PendingOrder {
                order_id,
                order: order.clone(),
                pre_sell_avg: if order.get_buy_or_sell() {
                    None
                } else {
                    Some(avg_price)
                },
            };
            self.pending_orders.push_back(item);
        }
        Ok(())
    }

    /// Checks that the interface answers a balance inquiry.
    pub fn on_start(&mut self) -> (r: StockrsResult<()>)
        ensures
            *final(self) == *old(self),
            r matches Err(e) ==> e is BalanceInquiry,
            exists|ans: StockrsResult<AssetInfo>|
                #[trigger] balance_answer(&*old(self).api_spec(), ans) && (r is Ok <==> ans is Ok),
    {
        let answer = self.api.get_balance();
        let ghost seen = answer;
        assert(balance_answer(&*self.api_spec(), seen));
        match answer {
            Ok(_) => Ok(()),
            Err(_) => Err(
                StockrsError::BalanceInquiry {
                    reason: String::from_str("API 연결 오류"),
                },
            ),
        }
    }

    /// Handles an order from the strategy: the same as `execute`.
    pub fn on_event<L: TradeLedger>(&mut self, order: &mut Order, db: &mut L) -> (r: StockrsResult<()>)
        ensures
            final(self).api_spec() == old(self).api_spec(),
            final(self).mode() == old(self).mode(),
            !order_basic_valid(*old(order)) ==> r is Err && *final(order) == *old(order),
            r is Ok ==> order_basic_valid(*old(order)),
            r is Err || old(self).mode() == TradingMode::Backtest ==> final(self).pending()@
                == old(self).pending()@,
            r is Ok && old(self).mode() != TradingMode::Backtest ==> {
                let added = final(self).pending()@.last();
                &&& final(self).pending()@ == old(self).pending()@.push(added)
                &&& added.order == *final(order)
                &&& (final(order).side == OrderSide::Buy <==> added.pre_sell_avg is None)
            },
            r is Err || old(self).mode() != TradingMode::Backtest ==> final(self).saved() == old(
                self,
            ).saved(),
            r is Ok && old(self).mode() == TradingMode::Backtest ==> exists|
                filled: bool,
                pre: u64,
                post: Option<u64>,
            |
                #[trigger] backtest_reads(&*old(self).api_spec(), *old(order), *final(order), filled, pre, post)
                    && (filled ==> final(self).saved() == old(self).saved().push(
                    (*final(order), recorded_avg_spec(final(order).side, pre, post)),
                )) && (!filled ==> final(self).saved() == old(self).saved()),
    {
        self.execute(order, db)
    }

    /// Called at the end of trading.
    pub fn on_end(&mut self) -> (r: StockrsResult<()>)
        ensures
            r is Ok,
            *final(self) == *old(self),
    {
        Ok(())
    }

    /// Called when a new trading day begins.
    pub fn reset_for_new_day(&mut self) -> (r: StockrsResult<()>)
        ensures
            r is Ok,
            *final(self) == *old(self),
    {
        Ok(())
    }

    /// Asks the brokerage about each pending order, oldest first, and records
    /// the fully filled ones; the others stay pending in their order. A
    /// failed inquiry stops the pass with an error and keeps every order not
    /// yet recorded. Only the brokerage's own interface is asked; with
    /// another interface every order stays.
    pub fn process_pending<L: TradeLedger>(&mut self, db: &mut L) -> (r: StockrsResult<()>)
        ensures
            final(self).api_spec() == old(self).api_spec(),
            final(self).mode() == old(self).mode(),
            subsequence_of(final(self).pending()@, old(self).pending()@),
            exists|leave: Seq<bool>, asked: Seq<Option<StockrsResult<Option<FillInfo>>>>|
                #[trigger] pending_pass(
                    old(self).pending()@,
                    old(self).saved(),
                    final(self).pending()@,
                    final(self).saved(),
                    leave,
                    asked,
                ) && pass_answers(&*old(self).api_spec(), old(self).pending()@, leave, asked, r is Err),
            old(self).api_spec().kind() != ApiKind::Korea ==> r is Ok && final(self).pending()@ == old(
                self,
            ).pending()@ && final(self).saved() == old(self).saved(),
            old(self).pending()@.len() == 0 ==> r is Ok && final(self).pending()@.len() == 0
                && final(self).saved() == old(self).saved(),
    {
        let ghost saved0 = self.saved@;
        let initial_len = self.pending_orders.len();
        if initial_len == 0 {
            proof {
                let idx = Seq::<int>::empty();
                assert(picks(idx, self.pending_orders@, self.pending_orders@));
                let leave = Seq::<bool>::empty();
                let asked = Seq::<Option<StockrsResult<Option<FillInfo>>>>::empty();
                assert(self.saved@.subrange(0, saved0.len() as int) =~= saved0);
                assert(self.saved@.subrange(saved0.len() as int, self.saved@.len() as int)
                    =~= Seq::<(Order, u64)>::empty());
                assert(self.pending_orders@ =~= kept_items(self.pending_orders@, leave));
                assert(pending_pass(
                    old(self).pending()@,
                    old(self).saved(),
                    self.pending()@,
                    self.saved(),
                    leave,
                    asked,
                ));
                assert(pass_answers(&*old(self).api_spec(), old(self).pending()@, leave, asked, false));
            }
            return Ok(());
        }
        let ghost queued = self.pending_orders@;
        let ghost api = &*self.api;
        let mut remaining: VecDeque<PendingOrder> = VecDeque::new();
        let ghost mut idx: Seq<int> = Seq::empty();
        let ghost mut leave: Seq<bool> = Seq::empty();
        let ghost mut asked: Seq<Option<StockrsResult<Option<FillInfo>>>> = Seq::empty();
        let is_brokerage = self.api.api_kind() == ApiKind::Korea;
        let mut k: usize = 0;
        proof {
            assert(queued.take(0) =~= Seq::<PendingOrder>::empty());
            assert(self.saved@.subrange(0, saved0.len() as int) =~= saved0);
            assert(self.saved@.subrange(saved0.len() as int, self.saved@.len() as int)
                =~= Seq::<(Order, u64)>::empty());
        }
        while k < initial_len
            invariant
                initial_len == queued.len(),
                queued == old(self).pending_orders@,
                k <= initial_len,
                self.pending_orders@ == queued.subrange(k as int, queued.len() as int),
                picks(idx, remaining@, queued),
                forall|i: int| 0 <= i < idx.len() ==> #[trigger] idx[i] < k,
                self.api == old(self).api,
                api == &*self.api,
                self.trading_mode == old(self).trading_mode,
                is_brokerage == (self.api.kind() == ApiKind::Korea),
                saved0 == old(self).saved@,
                leave.len() == k,
                asked.len() == k,
                remaining@ == kept_items(queued.take(k as int), leave),
                saved0.len() <= self.saved@.len(),
                self.saved@.subrange(0, saved0.len() as int) == saved0,
                self.saved@.subrange(saved0.len() as int, self.saved@.len() as int) == pass_records(
                    queued.take(k as int),
                    leave,
                    asked,
                ),
                forall|i: int| 0 <= i < k ==> item_decided(api, queued[i], leave[i], #[trigger] asked[i]),
                forall|i: int| 0 <= i < k ==> (#[trigger] asked[i] is Some <==> is_brokerage),
                forall|i: int|
                    0 <= i < k ==> !(#[trigger] asked[i] matches Some(a) && pending_action_spec(
                        queued[i],
                        a,
                    ) is Abort),
                !is_brokerage ==> remaining@ == queued.take(k as int) && self.saved@ == saved0,
            decreases initial_len - k,
        {
            let item = match self.pending_orders.pop_front() {
                Some(it) => it,
                None => {
                    proof {
                        assert(false);
                    }
                    return Ok(());
                },
            };
            assert(item == queued[k as int]);
            let ghost before_k = queued.take(k as int);
            let ghost upto = queued.take(k + 1);
            assert(upto.drop_last() =~= before_k);
            assert(upto.last() == item);
            let ghost saved_k = self.saved@;
            let ghost asked_k = asked;
            let keep: bool;
            if is_brokerage {
                let id = item.order_id.as_str();
                let answer = self.api.get_order_fill_info(id);
                let ghost seen = answer;
                assert(fill_info_answer(api, item, seen));
                match pending_action(&item, &answer) {
                    PendingAction::Record { avg_price } => {
                        match self.record(db, &item.order, avg_price) {
                            Ok(_) => {
                                keep = false;
                                proof {
                                    let old_recs = saved_k.subrange(
                                        saved0.len() as int,
                                        saved_k.len() as int,
                                    );
                                    let new_recs = self.saved@.subrange(
                                        saved0.len() as int,
                                        self.saved@.len() as int,
                                    );
                                    assert(new_recs =~= old_recs.push((item.order, avg_price)));
                                    assert(self.saved@.subrange(0, saved0.len() as int) =~= saved0);
                                    let lv = leave.push(true);
                                    let ak = asked.push(Some(seen));
                                    assert(lv.drop_last() =~= leave);
                                    assert(ak.drop_last() =~= asked);
                                    assert(pass_records(upto, lv, ak) == pass_records(
                                        before_k,
                                        leave,
                                        asked,
                                    ).push((item.order, avg_price)));
                                    assert(kept_items(upto, lv) == kept_items(before_k, leave));
                                    leave = lv;
                                    asked = ak;
                                }
                            },
                            Err(_) => {
                                keep = true;
                                proof {
                                    asked = asked.push(Some(seen));
                                }
                            },
                        }
                    },
                    PendingAction::Keep => {
                        keep = true;
                        proof {
                            asked = asked.push(Some(seen));
                        }
                    },
                    PendingAction::Abort => {
                        proof {
                            idx = idx.push(k as int);
                            let lv = leave.push(false);
                            let ak = asked.push(Some(seen));
                            assert(lv.drop_last() =~= leave);
                            assert(ak.drop_last() =~= asked);
                            assert(pass_records(upto, lv, ak) == pass_records(before_k, leave, asked));
                            assert(kept_items(upto, lv) == kept_items(before_k, leave).push(item));
                            leave = lv;
                            asked = ak;
                        }
                        remaining.push_back(item);
                        let mut j: usize = k + 1;
                        while j < initial_len
                            invariant
                                initial_len == queued.len(),
                                queued == old(self).pending_orders@,
                                k < j <= initial_len,
                                self.pending_orders@ == queued.subrange(
                                    j as int,
                                    queued.len() as int,
                                ),
                                picks(idx, remaining@, queued),
                                forall|i: int| 0 <= i < idx.len() ==> #[trigger] idx[i] < j,
                                self.api == old(self).api,
                                api == &*self.api,
                                self.trading_mode == old(self).trading_mode,
                                is_brokerage,
                                saved0 == old(self).saved@,
                                leave.len() == j,
                                asked.len() == j,
                                remaining@ == kept_items(queued.take(j as int), leave),
                                saved0.len() <= self.saved@.len(),
                                self.saved@.subrange(0, saved0.len() as int) == saved0,
                                self.saved@.subrange(saved0.len() as int, self.saved@.len() as int)
                                    == pass_records(queued.take(j as int), leave, asked),
                                forall|i: int|
                                    0 <= i < j ==> item_decided(
                                        api,
                                        queued[i],
                                        leave[i],
                                        #[trigger] asked[i],
                                    ),
                                forall|i: int| 0 <= i <= k ==> #[trigger] asked[i] is Some,
                                forall|i: int| k < i < j ==> #[trigger] asked[i] is None,
                                forall|i: int|
                                    0 <= i < k ==> !(#[trigger] asked[i] matches Some(a)
                                        && pending_action_spec(queued[i], a) is Abort),
                                asked[k as int] matches Some(a) && pending_action_spec(queued[k as int], a)
                                    is Abort,
                            decreases initial_len - j,
                        {
                            let rest = match self.pending_orders.pop_front() {
                                Some(it) => it,
                                None => {
                                    proof {
                                        assert(false);
                                    }
                                    return Ok(());
                                },
                            };
                            assert(rest == queued[j as int]);
                            proof {
                                idx = idx.push(j as int);
                                let prev = queued.take(j as int);
                                let next = queued.take(j + 1);
                                assert(next.drop_last() =~= prev);
                                assert(next.last() == rest);
                                let lv = leave.push(false);
                                let ak = asked.push(None);
                                assert(lv.drop_last() =~= leave);
                                assert(ak.drop_last() =~= asked);
                                assert(pass_records(next, lv, ak) == pass_records(prev, leave, asked));
                                assert(kept_items(next, lv) == kept_items(prev, leave).push(rest));
                                leave = lv;
                                asked = ak;
                            }
                            remaining.push_back(rest);
                            j = j + 1;
                        }
                        self.pending_orders = remaining;
                        assert(picks(idx, self.pending_orders@, queued));
                        proof {
                            assert(queued.take(initial_len as int) =~= queued);
                            assert(pending_pass(
                                old(self).pending()@,
                                old(self).saved(),
                                self.pending()@,
                                self.saved(),
                                leave,
                                asked,
                            ));
                            assert(pass_answers(
                                &*old(self).api_spec(),
                                old(self).pending()@,
                                leave,
                                asked,
                                true,
                            ));
                        }
                        return Err(
                            StockrsError::Api {
                                message: String::from_str("보류 주문 체결 조회 실패"),
                            },
                        );
                    },
                }
            } else {
                keep = true;
                proof {
                    asked = asked.push(None);
                }
            }
            if keep {
                proof {
                    idx = idx.push(k as int);
                    let lv = leave.push(false);
                    assert(lv.drop_last() =~= leave);
                    assert(asked.drop_last() =~= asked_k);
                    assert(pass_records(upto, lv, asked) == pass_records(before_k, leave, asked_k));
                    assert(kept_items(upto, lv) == kept_items(before_k, leave).push(item));
                    leave = lv;
                }
                remaining.push_back(item);
                proof {
                    if !is_brokerage {
                        assert(remaining@ =~= upto);
                    }
                }
            }
            k = k + 1;
        }
        self.pending_orders = remaining;
        proof {
            assert(queued.take(initial_len as int) =~= queued);
            assert(pending_pass(
                old(self).pending()@,
                old(self).saved(),
                self.pending()@,
                self.saved(),
                leave,
                asked,
            ));
            assert(pass_answers(&*old(self).api_spec(), old(self).pending()@, leave, asked, false));
        }
        Ok(())
    }
}

} // verus!

use std::cell::RefCell;
use std::collections::HashMap;
use std::rc::Rc;

use stockrs::api::{ApiKind, FillInfo, StockApi};
use stockrs::broker::{
    check_funds, pending_action, recorded_avg, PendingAction, PendingOrder, StockBroker, TradeLedger,
};
use stockrs::error::{StockrsError, StockrsResult};
use stockrs::types::{AssetInfo, Order, OrderSide, Timestamp, TradingMode};

#[derive(Clone, Copy)]
enum FillAnswer {
    Filled(u64),
    Partial,
    NotYet,
    Fails,
}

struct MockApi {
    kind: ApiKind,
    balance: u64,
    avg_price: Option<u64>,
    fills: RefCell<HashMap<String, FillAnswer>>,
    sent: RefCell<Vec<String>>,
}

impl MockApi {
    fn new(kind: ApiKind, balance: u64, avg_price: Option<u64>) -> MockApi {
        MockApi {
            kind,
            balance,
            avg_price,
            fills: RefCell::new(HashMap::new()),
            sent: RefCell::new(Vec::new()),
        }
    }

    fn answer(&self, order_id: &str, answer: FillAnswer) {
        self.fills.borrow_mut().insert(order_id.to_string(), answer);
    }
}

fn now() -> Timestamp {
    Timestamp { year: 2024, month: 3, day: 4, hour: 9, minute: 31, second: 0 }
}

impl StockApi for MockApi {
    fn kind(&self) -> ApiKind {
        self.kind
    }

    fn api_kind(&self) -> ApiKind {
        self.kind
    }

    fn execute_order(&self, order: &mut Order) -> StockrsResult<String> {
        let id = format!("{}-{}", order.stockcode, order.quantity);
        self.sent.borrow_mut().push(id.clone());
        Ok(id)
    }

    fn check_fill(&self, _order_id: &str) -> StockrsResult<bool> {
        Ok(true)
    }

    fn cancel_order(&self, _order_id: &str) -> StockrsResult<()> {
        Ok(())
    }

    fn get_balance(&self) -> StockrsResult<AssetInfo> {
        Ok(AssetInfo::new(now(), self.balance))
    }

    fn get_avg_price(&self, _stockcode: &str) -> StockrsResult<u64> {
        match self.avg_price {
            Some(p) => Ok(p),
            None => Err(StockrsError::Api { message: "no holding".to_string() }),
        }
    }

    fn get_current_price(&self, _stockcode: &str) -> StockrsResult<u64> {
        Ok(10_000)
    }

    fn get_current_price_at_time(&self, _stockcode: &str, _time_str: &str) -> StockrsResult<u64> {
        Ok(10_000)
    }

    fn calculate_balance_at_time(&self, _time_str: &str) -> StockrsResult<AssetInfo> {
        Ok(AssetInfo::new(now(), self.balance))
    }

    fn get_order_fill_info(&self, order_id: &str) -> StockrsResult<Option<FillInfo>> {
        match self.fills.borrow().get(order_id).copied() {
            Some(FillAnswer::Filled(avg)) => Ok(Some(FillInfo { rmn_qty: 0, avg_prvs: avg })),
            Some(FillAnswer::Partial) => Ok(Some(FillInfo { rmn_qty: 3, avg_prvs: 1 })),
            Some(FillAnswer::NotYet) | None => Ok(None),
            Some(FillAnswer::Fails) => Err(StockrsError::Api { message: "inquiry failed".to_string() }),
        }
    }
}

#[derive(Default)]
struct Ledger {
    rows: Vec<(String, OrderSide, u32, u64)>,
}

impl TradeLedger for Ledger {
    fn save_trading(&mut self, order: &Order, avg_price: u64) -> StockrsResult<()> {
        self.rows.push((order.stockcode.clone(), order.side, order.quantity, avg_price));
        Ok(())
    }
}

fn order(code: &str, side: OrderSide, quantity: u32, price: u64) -> Order {
    Order {
        date: now(),
        stockcode: code.to_string(),
        side,
        quantity,
        price,
        fee: 0,
        strategy: "test".to_string(),
    }
}

#[test]
fn broker_mode_follows_the_setting() {
    let api = Rc::new(MockApi::new(ApiKind::Korea, 0, None));
    assert_eq!(StockBroker::new(api.clone(), Some("real")).trading_mode(), TradingMode::Real);
    assert_eq!(StockBroker::new(api.clone(), Some("paper")).trading_mode(), TradingMode::Paper);
    assert_eq!(StockBroker::new(api.clone(), Some("backtest")).trading_mode(), TradingMode::Backtest);
    assert_eq!(StockBroker::new(api.clone(), Some("REAL")).trading_mode(), TradingMode::Backtest);
    assert_eq!(StockBroker::new(api.clone(), None).trading_mode(), TradingMode::Backtest);
    assert_eq!(StockBroker::new(api, None).pending_len(), 0);
}

#[test]
fn broker_rejects_malformed_orders() {
    let api = Rc::new(MockApi::new(ApiKind::Korea, 1_000_000, Some(1)));
    let broker = StockBroker::new(api, Some("real"));
    assert!(matches!(broker.validate(&order("", OrderSide::Buy, 1, 100)), Err(StockrsError::Validation { .. })));
    assert!(matches!(broker.validate(&order("005930", OrderSide::Buy, 0, 100)), Err(StockrsError::Validation { .. })));
    assert!(matches!(broker.validate(&order("005930", OrderSide::Buy, 1, 0)), Err(StockrsError::Validation { .. })));
    // outside backtesting no balance check is made
    assert!(broker.validate(&order("005930", OrderSide::Buy, 1_000, 1_000_000)).is_ok());
}

#[test]
fn funds_must_cover_the_amount_and_the_fee() {
    // 100 shares at 10,000 won: 1,000,000 won plus 150 won of fee
    let o = order("005930", OrderSide::Buy, 100, 10_000);
    assert!(check_funds(&o, 1_000_150).is_ok());
    assert!(matches!(check_funds(&o, 1_000_149), Err(StockrsError::Validation { .. })));
    assert!(matches!(check_funds(&o, 1_000_000), Err(StockrsError::Validation { .. })));
}

#[test]
fn backtest_validation_checks_balance_and_holdings() {
    let api = Rc::new(MockApi::new(ApiKind::Backtest, 1_000_150, None));
    let broker = StockBroker::new(api, Some("backtest"));
    assert!(broker.validate(&order("005930", OrderSide::Buy, 100, 10_000)).is_ok());
    assert!(matches!(
        broker.validate(&order("005930", OrderSide::Buy, 101, 10_000)),
        Err(StockrsError::Validation { .. })
    ));
    // a sell of a stock not held
    assert!(matches!(
        broker.validate(&order("005930", OrderSide::Sell, 1, 10_000)),
        Err(StockrsError::Validation { .. })
    ));
}

#[test]
fn backtest_execution_records_at_once() {
    let api = Rc::new(MockApi::new(ApiKind::Backtest, 10_000_000, Some(9_000)));
    let mut broker = StockBroker::new(api.clone(), Some("backtest"));
    let mut ledger = Ledger::default();
    let mut buy = order("005930", OrderSide::Buy, 10, 10_000);
    assert!(broker.on_event(&mut buy, &mut ledger).is_ok());
    let mut sell = order("005930", OrderSide::Sell, 10, 11_000);
    assert!(broker.execute(&mut sell, &mut ledger).is_ok());
    assert_eq!(broker.pending_len(), 0);
    assert_eq!(
        ledger.rows,
        vec![
            ("005930".to_string(), OrderSide::Buy, 10, 9_000),
            ("005930".to_string(), OrderSide::Sell, 10, 9_000),
        ]
    );
    assert_eq!(api.sent.borrow().len(), 2);
}

#[test]
fn invalid_orders_are_not_sent() {
    let api = Rc::new(MockApi::new(ApiKind::Korea, 10_000_000, Some(9_000)));
    let mut broker = StockBroker::new(api.clone(), Some("real"));
    let mut ledger = Ledger::default();
    let mut bad = order("005930", OrderSide::Buy, 0, 10_000);
    assert!(broker.execute(&mut bad, &mut ledger).is_err());
    assert_eq!(api.sent.borrow().len(), 0);
    assert_eq!(broker.pending_len(), 0);
    assert!(ledger.rows.is_empty());
}

#[test]
fn live_orders_wait_until_fully_filled() {
    let api = Rc::new(MockApi::new(ApiKind::Korea, 10_000_000, Some(9_000)));
    let mut broker = StockBroker::new(api.clone(), Some("paper"));
    let mut ledger = Ledger::default();
    let mut a = order("000001", OrderSide::Buy, 1, 100);
    let mut b = order("000002", OrderSide::Sell, 2, 100);
    let mut c = order("000003", OrderSide::Buy, 3, 100);
    broker.execute(&mut a, &mut ledger).unwrap();
    broker.execute(&mut b, &mut ledger).unwrap();
    broker.execute(&mut c, &mut ledger).unwrap();
    assert_eq!(broker.pending_len(), 3);
    assert!(ledger.rows.is_empty());

    api.answer("000001-1", FillAnswer::Filled(101));
    api.answer("000002-2", FillAnswer::Partial);
    api.answer("000003-3", FillAnswer::NotYet);
    assert!(broker.process_pending(&mut ledger).is_ok());
    assert_eq!(ledger.rows, vec![("000001".to_string(), OrderSide::Buy, 1, 101)]);
    assert_eq!(broker.pending_len(), 2);

    // a sell is recorded at the average purchase price read before it was sent
    api.answer("000002-2", FillAnswer::Filled(555));
    api.answer("000003-3", FillAnswer::Filled(99));
    assert!(broker.process_pending(&mut ledger).is_ok());
    assert_eq!(broker.pending_len(), 0);
    assert_eq!(ledger.rows[1], ("000002".to_string(), OrderSide::Sell, 2, 9_000));
    assert_eq!(ledger.rows[2], ("000003".to_string(), OrderSide::Buy, 3, 99));
}

#[test]
fn a_failed_inquiry_keeps_every_order_left() {
    let api = Rc::new(MockApi::new(ApiKind::Korea, 10_000_000, Some(9_000)));
    let mut broker = StockBroker::new(api.clone(), Some("real"));
    let mut ledger = Ledger::default();
    for (code, qty) in [("000001", 1), ("000002", 2), ("000003", 3)] {
        let mut o = order(code, OrderSide::Buy, qty, 100);
        broker.execute(&mut o, &mut ledger).unwrap();
    }
    api.answer("000001-1", FillAnswer::Filled(100));
    api.answer("000002-2", FillAnswer::Fails);
    api.answer("000003-3", FillAnswer::Filled(100));
    assert!(matches!(broker.process_pending(&mut ledger), Err(StockrsError::Api { .. })));
    assert_eq!(ledger.rows.len(), 1);
    assert_eq!(broker.pending_len(), 2);
}

#[test]
fn other_interfaces_leave_pending_orders_alone() {
    let api = Rc::new(MockApi::new(ApiKind::Db, 10_000_000, Some(9_000)));
    let mut broker = StockBroker::new(api.clone(), Some("real"));
    let mut ledger = Ledger::default();
    let mut o = order("000001", OrderSide::Buy, 1, 100);
    broker.execute(&mut o, &mut ledger).unwrap();
    api.answer("000001-1", FillAnswer::Filled(100));
    assert!(broker.process_pending(&mut ledger).is_ok());
    assert_eq!(broker.pending_len(), 1);
    assert!(ledger.rows.is_empty());
}

#[test]
fn pending_action_by_answer() {
    let buy = PendingOrder { order_id: "1".to_string(), order: order("A", OrderSide::Buy, 1, 1), pre_sell_avg: None };
    let sell = PendingOrder {
        order_id: "2".to_string(),
        order: order("A", OrderSide::Sell, 1, 1),
        pre_sell_avg: Some(70),
    };
    let filled: StockrsResult<Option<FillInfo>> = Ok(Some(FillInfo { rmn_qty: 0, avg_prvs: 50 }));
    let partial: StockrsResult<Option<FillInfo>> = Ok(Some(FillInfo { rmn_qty: 1, avg_prvs: 50 }));
    let none: StockrsResult<Option<FillInfo>> = Ok(None);
    let failed: StockrsResult<Option<FillInfo>> = Err(StockrsError::Api { message: "x".to_string() });
    assert!(matches!(pending_action(&buy, &filled), PendingAction::Record { avg_price: 50 }));
    assert!(matches!(pending_action(&sell, &filled), PendingAction::Record { avg_price: 70 }));
    assert!(matches!(pending_action(&buy, &partial), PendingAction::Keep));
    assert!(matches!(pending_action(&buy, &none), PendingAction::Keep));
    assert!(matches!(pending_action(&buy, &failed), PendingAction::Abort));
}

#[test]
fn broker_start_asks_for_a_balance() {
    struct Broken;
    impl StockApi for Broken {
        fn kind(&self) -> ApiKind {
            ApiKind::Korea
        }

        fn api_kind(&self) -> ApiKind {
            ApiKind::Korea
        }
        fn execute_order(&self, _o: &mut Order) -> StockrsResult<String> {
            Err(StockrsError::Api { message: "down".to_string() })
        }
        fn check_fill(&self, _id: &str) -> StockrsResult<bool> {
            Ok(false)
        }
        fn cancel_order(&self, _id: &str) -> StockrsResult<()> {
            Ok(())
        }
        fn get_balance(&self) -> StockrsResult<AssetInfo> {
            Err(StockrsError::Api { message: "down".to_string() })
        }
        fn get_avg_price(&self, _c: &str) -> StockrsResult<u64> {
            Ok(1)
        }
        fn get_current_price(&self, _c: &str) -> StockrsResult<u64> {
            Ok(1)
        }
        fn get_current_price_at_time(&self, _c: &str, _t: &str) -> StockrsResult<u64> {
            Ok(1)
        }
        fn calculate_balance_at_time(&self, _t: &str) -> StockrsResult<AssetInfo> {
            Err(StockrsError::Api { message: "down".to_string() })
        }
        fn get_order_fill_info(&self, _id: &str) -> StockrsResult<Option<FillInfo>> {
            Ok(None)
        }
    }
    let mut broken = StockBroker::new(Rc::new(Broken), Some("real"));
    assert!(matches!(broken.on_start(), Err(StockrsError::BalanceInquiry { .. })));
    let mut fine = StockBroker::new(Rc::new(MockApi::new(ApiKind::Korea, 1, None)), Some("real"));
    assert!(fine.on_start().is_ok());
    assert!(fine.on_end().is_ok());
    assert!(fine.reset_for_new_day().is_ok());
}

#[test]
fn recorded_average_price_by_side() {
    assert_eq!(recorded_avg(OrderSide::Buy, 7, Some(9_000)), 9_000);
    assert_eq!(recorded_avg(OrderSide::Buy, 7, None), 0);
    assert_eq!(recorded_avg(OrderSide::Sell, 7, Some(9_000)), 7);
    assert_eq!(recorded_avg(OrderSide::Sell, 7, None), 7);
}

#[test]
fn a_backtest_buy_without_an_average_is_recorded_at_zero() {
    let api = Rc::new(MockApi::new(ApiKind::Backtest, 10_000_000, None));
    let mut broker = StockBroker::new(api, Some("backtest"));
    let mut ledger = Ledger::default();
    let mut buy = order("005930", OrderSide::Buy, 1, 10_000);
    assert!(broker.execute(&mut buy, &mut ledger).is_ok());
    assert_eq!(ledger.rows, vec![("005930".to_string(), OrderSide::Buy, 1, 0)]);
}

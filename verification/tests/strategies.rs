use std::cell::{Cell, RefCell};
use std::rc::Rc;

use stockrs::api::{ApiKind, FillInfo, StockApi};
use stockrs::error::{StockrsError, StockrsResult};
use stockrs::model::dongwon::{DongwonModel, DongwonSettings};
use stockrs::model::dummy::DummyModel;
use stockrs::model::joonwoo::{JoonwooModel, JoonwooPhase, JoonwooSettings, TradingState};
use stockrs::model::minseop::{
    entry_pick, error_mentions_phrase, MinseopModel, MinseopPhase, MinseopSettings,
    TradingState as MinseopState,
};
use stockrs::model::{ApiBundle, MarketContext, Model};
use stockrs::types::{AssetInfo, Order, OrderSide, Timestamp, TradingMode};

/// A market whose price is set by the test; `missing` makes every price
/// lookup fail the way the minute-data store does for an unknown stock.
struct Market {
    kind: ApiKind,
    price: Rc<Cell<u64>>,
    balance: u64,
    missing: bool,
    asked: RefCell<Vec<String>>,
}

impl StockApi for Market {
    fn kind(&self) -> ApiKind {
        self.kind
    }

    fn api_kind(&self) -> ApiKind {
        self.kind
    }
    fn execute_order(&self, _order: &mut Order) -> StockrsResult<String> {
        Ok("1".to_string())
    }
    fn check_fill(&self, _order_id: &str) -> StockrsResult<bool> {
        Ok(true)
    }
    fn cancel_order(&self, _order_id: &str) -> StockrsResult<()> {
        Ok(())
    }
    fn get_balance(&self) -> StockrsResult<AssetInfo> {
        Ok(AssetInfo::new(at(9, 0), self.balance))
    }
    fn get_avg_price(&self, _stockcode: &str) -> StockrsResult<u64> {
        Ok(self.price.get())
    }
    fn get_current_price(&self, _stockcode: &str) -> StockrsResult<u64> {
        Ok(self.price.get())
    }
    fn get_current_price_at_time(&self, stockcode: &str, time_str: &str) -> StockrsResult<u64> {
        self.asked.borrow_mut().push(format!("{}@{}", stockcode, time_str));
        if self.missing {
            return Err(StockrsError::General {
                message: "해당 종목의 데이터가 1분봉 DB에 존재하지 않습니다".to_string(),
            });
        }
        Ok(self.price.get())
    }
    fn calculate_balance_at_time(&self, _time_str: &str) -> StockrsResult<AssetInfo> {
        Ok(AssetInfo::new(at(9, 0), self.balance))
    }
    fn get_order_fill_info(&self, _order_id: &str) -> StockrsResult<Option<FillInfo>> {
        Ok(None)
    }
}

struct Picks {
    top: Option<String>,
    regression: Option<(String, bool)>,
    skip_missing: bool,
    dates: Vec<String>,
}

impl MarketContext for Picks {
    fn predict_top_stock(&mut self, date: &str) -> StockrsResult<Option<String>> {
        self.dates.push(date.to_string());
        Ok(self.top.clone())
    }
    fn predict_top_stock_regression(&mut self, date: &str) -> StockrsResult<Option<(String, bool)>> {
        self.dates.push(date.to_string());
        Ok(self.regression.clone())
    }
    fn skip_missing_price_as_unavailable(&self) -> bool {
        self.skip_missing
    }
}

fn at(hour: u32, minute: u32) -> Timestamp {
    Timestamp { year: 2024, month: 3, day: 4, hour, minute, second: 0 }
}

fn market(kind: ApiKind, price: &Rc<Cell<u64>>, missing: bool) -> Rc<Market> {
    Rc::new(Market { kind, price: price.clone(), balance: 10_000_000, missing, asked: RefCell::new(Vec::new()) })
}

fn backtest_bundle(price: &Rc<Cell<u64>>, missing: bool) -> ApiBundle<Market> {
    ApiBundle::new_with_backtest_apis(
        TradingMode::Backtest,
        market(ApiKind::Korea, price, missing),
        market(ApiKind::Korea, price, missing),
        market(ApiKind::Korea, price, missing),
        market(ApiKind::Db, price, missing),
        market(ApiKind::Backtest, price, missing),
        market(ApiKind::Db, price, missing),
    )
}

fn picks(top: &str) -> Picks {
    Picks { top: Some(top.to_string()), regression: Some((top.to_string(), true)), skip_missing: false, dates: vec![] }
}

fn expect_order(r: StockrsResult<Option<Order>>) -> Order {
    match r {
        Ok(Some(o)) => o,
        Ok(None) => panic!("no order"),
        Err(e) => panic!("error {:?}", e),
    }
}

#[test]
fn joonwoo_defaults() {
    let m = JoonwooModel::new(None);
    assert_eq!(m.state(), TradingState::WaitingForEntry);
    assert_eq!(m.get_entry_time_for_today(None).unwrap(), (9, 30));
    assert_eq!(m.get_force_close_time_for_today(None).unwrap(), (12, 0));
    assert_eq!(m.get_entry_time_for_today(Some(60)).unwrap(), (10, 30));
    assert_eq!(m.get_force_close_time_for_today(Some(-30)).unwrap(), (11, 30));
    assert!(m.get_entry_time_for_today(Some(900)).is_err());
    assert_eq!(m.remaining_size(), 0);
    assert!(m.current_stock().is_none());
}

#[test]
fn joonwoo_phases_follow_the_clock() {
    let m = JoonwooModel::with_default_values();
    assert_eq!(m.event_phase(at(9, 29), None), JoonwooPhase::Idle);
    assert_eq!(m.event_phase(at(9, 30), None), JoonwooPhase::Entry);
    assert_eq!(m.event_phase(at(10, 15), None), JoonwooPhase::CheckExit);
    assert_eq!(m.event_phase(at(12, 0), None), JoonwooPhase::ForceClose);
    assert_eq!(m.event_phase(at(12, 1), None), JoonwooPhase::Idle);
    assert_eq!(m.event_phase(at(10, 30), Some(60)), JoonwooPhase::Entry);
    assert_eq!(m.event_phase(at(9, 30), Some(60)), JoonwooPhase::Idle);
    let bad = JoonwooModel::new(Some(JoonwooSettings {
        stop_loss_pct: 100,
        take_profit_pct: 200,
        trailing_stop_pct: 70,
        entry_time: "0930".to_string(),
        force_close_time: "12:00:00".to_string(),
        entry_asset_ratio: 9000,
    }));
    assert_eq!(bad.event_phase(at(9, 30), None), JoonwooPhase::Idle);
}

#[test]
fn joonwoo_enters_with_its_share_of_the_assets() {
    let price = Rc::new(Cell::new(10_000));
    let apis = backtest_bundle(&price, false);
    let mut ctx = picks("A005930");
    let mut m = JoonwooModel::new(None);
    assert!(matches!(m.on_event(&apis, &mut ctx, at(9, 0), None), Ok(None)));
    let o = expect_order(m.on_event(&apis, &mut ctx, at(9, 30), None));
    // 90% of 10,000,000 won at 10,000 won a share
    assert_eq!(o.side, OrderSide::Buy);
    assert_eq!(o.quantity, 900);
    assert_eq!(o.price, 10_000);
    assert_eq!(o.stockcode, "A005930");
    assert_eq!(o.strategy, "joonwoo_entry");
    assert_eq!(o.date, at(9, 30));
    assert_eq!(ctx.dates, vec!["20240304".to_string()]);
    assert_eq!(*apis.db_api.asked.borrow(), vec!["A005930@202403040930".to_string()]);
    assert_eq!(m.state(), TradingState::Holding);
    assert_eq!(m.position_size(), 900);
    assert_eq!(m.entry_price(), 10_000);
    // the entry minute comes once a day
    assert!(matches!(m.try_entry(&apis, &mut ctx, at(9, 30), None), Ok(None)));
}

#[test]
fn joonwoo_stop_loss_sells_everything() {
    let price = Rc::new(Cell::new(10_000));
    let apis = backtest_bundle(&price, false);
    let mut ctx = picks("A005930");
    let mut m = JoonwooModel::new(None);
    expect_order(m.on_event(&apis, &mut ctx, at(9, 30), None));
    price.set(9_901);
    assert!(matches!(m.on_event(&apis, &mut ctx, at(9, 31), None), Ok(None)));
    price.set(9_900);
    let o = expect_order(m.on_event(&apis, &mut ctx, at(9, 32), None));
    assert_eq!((o.side, o.quantity, o.price), (OrderSide::Sell, 900, 9_900));
    assert_eq!(o.strategy, "joonwoo_stop_loss");
    assert_eq!(m.state(), TradingState::Closed);
    assert_eq!(m.remaining_size(), 0);
    // nothing more for the day
    price.set(5_000);
    assert!(matches!(m.on_event(&apis, &mut ctx, at(9, 33), None), Ok(None)));
    assert!(matches!(m.on_event(&apis, &mut ctx, at(12, 0), None), Ok(None)));
}

#[test]
fn joonwoo_take_profit_then_trailing_stop() {
    let price = Rc::new(Cell::new(10_000));
    let apis = backtest_bundle(&price, false);
    let mut ctx = picks("A005930");
    let mut m = JoonwooModel::new(None);
    expect_order(m.on_event(&apis, &mut ctx, at(9, 30), None));
    price.set(10_200);
    let half = expect_order(m.on_event(&apis, &mut ctx, at(9, 40), None));
    assert_eq!((half.side, half.quantity), (OrderSide::Sell, 450));
    assert_eq!(half.strategy, "joonwoo_take_profit_half");
    assert_eq!(m.state(), TradingState::PartialSold);
    assert_eq!(m.remaining_size(), 450);
    assert_eq!(m.highest_price_after_take_profit(), Some(10_200));
    price.set(10_300);
    assert!(matches!(m.on_event(&apis, &mut ctx, at(9, 41), None), Ok(None)));
    assert_eq!(m.highest_price_after_take_profit(), Some(10_300));
    // 0.7% under the high of 10,300 is 10,227.9
    price.set(10_228);
    assert!(matches!(m.on_event(&apis, &mut ctx, at(9, 42), None), Ok(None)));
    price.set(10_227);
    let rest = expect_order(m.on_event(&apis, &mut ctx, at(9, 43), None));
    assert_eq!((rest.side, rest.quantity, rest.price), (OrderSide::Sell, 450, 10_227));
    assert_eq!(rest.strategy, "joonwoo_trailing_stop");
    assert_eq!(m.state(), TradingState::Closed);
    assert_eq!(m.position_size(), 900);
}

#[test]
fn joonwoo_closes_out_at_the_close_time() {
    let price = Rc::new(Cell::new(10_000));
    let apis = backtest_bundle(&price, false);
    let mut ctx = picks("A005930");
    let mut m = JoonwooModel::new(None);
    expect_order(m.on_event(&apis, &mut ctx, at(9, 30), None));
    price.set(10_050);
    let o = expect_order(m.on_event(&apis, &mut ctx, at(12, 0), None));
    assert_eq!((o.side, o.quantity, o.price), (OrderSide::Sell, 900, 10_050));
    assert_eq!(o.strategy, "joonwoo_time_stop");
    assert_eq!(m.state(), TradingState::Closed);
    assert!(m.reset_for_new_day().is_ok());
    assert_eq!(m.state(), TradingState::WaitingForEntry);
    assert_eq!(m.position_size(), 0);
    assert!(m.current_stock().is_none());
    assert_eq!(m.get_entry_time_for_today(None).unwrap(), (9, 30));
}

#[test]
fn joonwoo_without_a_pick_does_not_enter() {
    let price = Rc::new(Cell::new(10_000));
    let apis = backtest_bundle(&price, false);
    let mut ctx = Picks { top: None, regression: None, skip_missing: false, dates: vec![] };
    let mut m = JoonwooModel::new(None);
    assert!(matches!(m.on_event(&apis, &mut ctx, at(9, 30), None), Ok(None)));
    assert_eq!(m.state(), TradingState::WaitingForEntry);
}

#[test]
fn joonwoo_exit_decision_at_a_zero_entry_price() {
    let mut m = JoonwooModel::new(None);
    let o = m.enter_position(at(9, 30), "A1".to_string(), 0, 1_000).unwrap();
    // a zero price saturates the quantity, as a float-to-integer cast does
    assert_eq!(o.quantity, u32::MAX);
    let sell = m.exit_decision(at(9, 31), 1).unwrap();
    assert_eq!(sell.strategy, "joonwoo_take_profit_half");
}

#[test]
fn joonwoo_enter_position_buys_nothing_without_money() {
    let mut m = JoonwooModel::new(None);
    assert!(m.enter_position(at(9, 30), "A1".to_string(), 10_000, 11_000).is_none());
    assert_eq!(m.state(), TradingState::WaitingForEntry);
    let o = m.enter_position(at(9, 30), "A1".to_string(), 10_000, 11_112).unwrap();
    assert_eq!(o.quantity, 1);
}

#[test]
fn minseop_defaults_and_phases() {
    let m = MinseopModel::new(None);
    assert_eq!(m.state(), MinseopState::WaitingForEntry);
    assert_eq!(m.event_phase(at(9, 29), None), MinseopPhase::Idle);
    assert_eq!(m.event_phase(at(9, 30), None), MinseopPhase::Entry);
    assert_eq!(m.event_phase(at(11, 59), None), MinseopPhase::CheckExit);
    assert_eq!(m.event_phase(at(12, 0), None), MinseopPhase::ForceClose);
    assert_eq!(m.event_phase(at(15, 0), None), MinseopPhase::ForceClose);
    // only the entry time moves on a special day
    assert_eq!(m.get_entry_time_for_today_global(Some(60)).unwrap(), (10, 30));
    assert_eq!(m.get_force_close_time_for_today_global().unwrap(), (12, 0));
}

#[test]
fn minseop_entry_quantity_prefers_the_fixed_amount() {
    let m = MinseopModel::new(None);
    assert_eq!(m.entry_quantity(10_000, 10_000_000), 100);
    // the fixed amount is more than the assets: 90% of them
    assert_eq!(m.entry_quantity(10_000, 900_000), 81);
    // the fixed amount buys no share at this price
    assert_eq!(m.entry_quantity(2_000_000, 10_000_000), 4);
    let by_ratio = MinseopModel::new(Some(MinseopSettings {
        stop_loss_pct: 100,
        take_profit_pct: 200,
        entry_time: "09:30:00".to_string(),
        force_close_time: "12:00:00".to_string(),
        entry_asset_ratio: 5000,
        fixed_entry_amount: 0,
    }));
    assert_eq!(by_ratio.entry_quantity(10_000, 10_000_000), 500);
}

#[test]
fn minseop_buys_then_takes_profit() {
    let price = Rc::new(Cell::new(10_000));
    let apis = backtest_bundle(&price, false);
    let mut ctx = picks("A000660");
    let mut m = MinseopModel::new(None);
    let buy = expect_order(m.on_event(&apis, &mut ctx, at(9, 30), None));
    assert_eq!((buy.side, buy.quantity, buy.price), (OrderSide::Buy, 100, 10_000));
    assert_eq!(buy.strategy, "minseop_entry");
    assert_eq!(m.state(), MinseopState::Holding);
    price.set(10_199);
    assert!(matches!(m.on_event(&apis, &mut ctx, at(9, 45), None), Ok(None)));
    price.set(10_200);
    let sell = expect_order(m.on_event(&apis, &mut ctx, at(9, 46), None));
    assert_eq!((sell.side, sell.quantity), (OrderSide::Sell, 100));
    assert_eq!(sell.strategy, "take_profit");
    assert_eq!(m.state(), MinseopState::Closed);
    assert!(matches!(m.on_event(&apis, &mut ctx, at(12, 5), None), Ok(None)));
}

#[test]
fn minseop_stop_loss_and_force_close() {
    let price = Rc::new(Cell::new(10_000));
    let apis = backtest_bundle(&price, false);
    let mut ctx = picks("A000660");
    let mut m = MinseopModel::new(None);
    expect_order(m.on_event(&apis, &mut ctx, at(9, 30), None));
    price.set(9_900);
    let sell = expect_order(m.on_event(&apis, &mut ctx, at(9, 31), None));
    assert_eq!(sell.strategy, "stop_loss");

    let mut m = MinseopModel::new(None);
    price.set(10_000);
    expect_order(m.on_event(&apis, &mut ctx, at(9, 30), None));
    price.set(10_010);
    let sell = expect_order(m.on_event(&apis, &mut ctx, at(12, 3), None));
    assert_eq!((sell.quantity, sell.price), (100, 10_010));
    assert_eq!(sell.strategy, "force_close");
    assert_eq!(m.state(), MinseopState::Closed);
    assert!(m.reset_for_new_day().is_ok());
    assert_eq!(m.state(), MinseopState::WaitingForEntry);
    assert_eq!(m.remaining_size(), 0);
}

#[test]
fn minseop_skips_a_negative_prediction() {
    let price = Rc::new(Cell::new(10_000));
    let apis = backtest_bundle(&price, false);
    let mut ctx = Picks {
        top: None,
        regression: Some(("A000660".to_string(), false)),
        skip_missing: false,
        dates: vec![],
    };
    let mut m = MinseopModel::new(None);
    assert!(matches!(m.on_event(&apis, &mut ctx, at(9, 30), None), Ok(None)));
    assert_eq!(m.state(), MinseopState::WaitingForEntry);
}

#[test]
fn minseop_missing_minute_data() {
    let price = Rc::new(Cell::new(10_000));
    let apis = backtest_bundle(&price, true);
    let mut m = MinseopModel::new(None);
    let mut skipping = picks("A000660");
    skipping.skip_missing = true;
    assert!(matches!(m.on_event(&apis, &mut skipping, at(9, 30), None), Ok(None)));
    let mut strict = picks("A000660");
    assert!(matches!(m.on_event(&apis, &mut strict, at(9, 30), None), Err(StockrsError::General { .. })));
    assert_eq!(m.state(), MinseopState::WaitingForEntry);
}

#[test]
fn error_phrases_are_found_in_any_field() {
    let e = StockrsError::UnsupportedFeature { feature: "price".to_string(), phase: "real mode".to_string() };
    assert!(error_mentions_phrase(&e, "real"));
    assert!(error_mentions_phrase(&e, "pri"));
    assert!(!error_mentions_phrase(&e, "paper"));
    let e = StockrsError::Api { message: "abc".to_string() };
    assert!(error_mentions_phrase(&e, ""));
}

#[test]
fn dongwon_buys_and_sells_on_its_minutes() {
    let price = Rc::new(Cell::new(70_000));
    let apis = backtest_bundle(&price, false);
    let mut ctx = picks("unused");
    let mut m = DongwonModel::new(None);
    assert!(matches!(m.on_event(&apis, &mut ctx, at(9, 9), None), Ok(None)));
    let buy = expect_order(m.on_event(&apis, &mut ctx, at(9, 10), None));
    assert_eq!((buy.side, buy.quantity, buy.price), (OrderSide::Buy, 1, 70_000));
    assert_eq!(buy.stockcode, "005930");
    assert_eq!(buy.strategy, "dongwon_entry");
    assert_eq!(m.holding_qty(), 1);
    assert!(matches!(m.on_event(&apis, &mut ctx, at(12, 0), None), Ok(None)));
    price.set(71_000);
    let sell = expect_order(m.on_event(&apis, &mut ctx, at(15, 15), None));
    assert_eq!((sell.side, sell.quantity, sell.price), (OrderSide::Sell, 1, 71_000));
    assert_eq!(sell.strategy, "dongwon_exit");
    assert_eq!(m.holding_qty(), 0);
    assert_eq!(*apis.db_api.asked.borrow(), vec![
        "005930@202403040910".to_string(),
        "005930@202403041515".to_string(),
    ]);
}

#[test]
fn dongwon_settings_replace_only_what_is_given() {
    let price = Rc::new(Cell::new(1_000));
    let apis = backtest_bundle(&price, false);
    let mut ctx = picks("unused");
    let mut m = DongwonModel::new(Some(DongwonSettings {
        stockcode: String::new(),
        entry_time: "10:00:00".to_string(),
        exit_time: String::new(),
        quantity: 0,
    }));
    let buy = expect_order(m.on_event(&apis, &mut ctx, at(10, 0), None));
    assert_eq!((buy.stockcode.as_str(), buy.quantity), ("005930", 1));
    assert!(m.reset_for_new_day().is_ok());
    assert_eq!(m.holding_qty(), 0);
    assert_eq!(DongwonModel::parse_hm("13:46:00").unwrap(), (13, 46));
    assert!(DongwonModel::parse_hm("13:46").is_err());
}

#[test]
fn dummy_model_orders_on_its_third_tick_and_stops_on_its_fifth() {
    let price = Rc::new(Cell::new(1));
    let apis = backtest_bundle(&price, false);
    let mut ctx = picks("unused");
    let mut m = DummyModel::new();
    assert!(m.on_start().is_ok());
    assert!(matches!(m.on_event(&apis, &mut ctx, at(9, 0), None), Ok(None)));
    assert!(matches!(m.on_event(&apis, &mut ctx, at(9, 1), None), Ok(None)));
    let o = expect_order(m.on_event(&apis, &mut ctx, at(9, 2), None));
    assert_eq!((o.stockcode.as_str(), o.quantity, o.price, o.fee), ("005930", 1, 70_000, 100));
    assert_eq!(o.strategy, "DummyTest");
    assert_eq!(o.date, Timestamp { year: 2022, month: 1, day: 1, hour: 0, minute: 0, second: 0 });
    assert!(matches!(m.on_event(&apis, &mut ctx, at(9, 3), None), Ok(None)));
    assert!(matches!(m.on_event(&apis, &mut ctx, at(9, 4), None), Err(StockrsError::General { .. })));
    assert_eq!(m.call_count(), 5);
}

#[test]
fn bundle_answers_by_mode() {
    let price = Rc::new(Cell::new(5));
    let apis = backtest_bundle(&price, false);
    assert!(apis.is_backtest_mode());
    assert_eq!(apis.get_current_api().api_kind(), ApiKind::Backtest);
    assert_eq!(apis.get_balance().unwrap().get_asset(), 10_000_000);
    assert_eq!(apis.get_current_price("X", "202403040930").unwrap(), 5);
    let live = ApiBundle::new(
        TradingMode::Paper,
        market(ApiKind::Korea, &price, false),
        market(ApiKind::Korea, &price, false),
        market(ApiKind::Korea, &price, false),
        market(ApiKind::Db, &price, false),
    );
    assert!(live.is_paper_mode());
    assert!(live.get_backtest_api().is_none());
    assert!(matches!(
        live.get_current_price_at_time("X", "202403040930"),
        Err(StockrsError::UnsupportedFeature { .. })
    ));
    let no_account = ApiBundle::new(
        TradingMode::Backtest,
        market(ApiKind::Korea, &price, false),
        market(ApiKind::Korea, &price, false),
        market(ApiKind::Korea, &price, false),
        market(ApiKind::Db, &price, false),
    );
    assert!(matches!(no_account.get_balance(), Err(StockrsError::BalanceInquiry { .. })));
    assert_eq!(no_account.get_current_api().api_kind(), ApiKind::Db);
}

#[test]
fn the_regression_pick_enters_only_when_not_negative() {
    assert_eq!(entry_pick(Some(("A1".to_string(), true))), Some("A1".to_string()));
    assert_eq!(entry_pick(Some(("A1".to_string(), false))), None);
    assert_eq!(entry_pick(None), None);
}

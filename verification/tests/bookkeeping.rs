use std::rc::Rc;

use stockrs::api::{
    ApiKind, ApiMode, DbApi, FillInfo, StockApi, DB_API_AVG_PRICE, DB_API_BALANCE,
    DB_API_CURRENT_PRICE,
};
use stockrs::clock::{session_phase, SessionPhase, format_hhmm, format_ymd, format_ymdhm, parse_time_string, scheduled_time, shift_time_of_day};
use stockrs::data_reader::{
    make_data_reader, AnyDataReader, ApiFactory, DataReader, DbDataReader, DB_READER_ASSET,
    DB_READER_AVG_PRICE,
};
use stockrs::db_manager::{
    balance_call, closing_result, daily_result, get_balance_with_mode, overview_on_balance, update_high_low,
    ApiTypeDetector, BacktestMode, BalanceCall, DBResult, DailyResult, OverviewWrite,
};
use stockrs::error::{StockrsError, StockrsResult};
use stockrs::koreainvestapi;
use stockrs::text::{chars_of, contains_chars, eq_ignore_ascii_case, parse_u32, split_fields, str_equals};
use stockrs::types::{
    quantity_for_ratio, rate_is_at_least, rate_is_at_most, ApiType, AssetInfo, DataReaderType, Order,
    OrderSide, Timestamp,
};

fn at(hour: u32, minute: u32) -> Timestamp {
    Timestamp { year: 2024, month: 3, day: 4, hour, minute, second: 0 }
}

#[test]
fn time_strings_read_hour_and_minute() {
    assert_eq!(parse_time_string("09:30:00").unwrap(), (9, 30));
    assert_eq!(parse_time_string("9:5:xx").unwrap(), (9, 5));
    assert_eq!(parse_time_string("+12:00:00").unwrap(), (12, 0));
    assert!(matches!(parse_time_string("09:30"), Err(StockrsError::Parsing { .. })));
    assert!(parse_time_string("09:30:00:00").is_err());
    assert!(parse_time_string("aa:30:00").is_err());
    assert!(parse_time_string(":30:00").is_err());
    assert!(parse_time_string("09:-1:00").is_err());
    assert_eq!(parse_time_string("4294967295:0:0").unwrap(), (4294967295, 0));
    assert!(parse_time_string("4294967296:0:0").is_err());
}

#[test]
fn shifted_times_stay_within_the_day() {
    assert_eq!(shift_time_of_day(9, 30, 60).unwrap(), (10, 30));
    assert_eq!(shift_time_of_day(9, 30, -570).unwrap(), (0, 0));
    assert!(matches!(shift_time_of_day(9, 30, -571), Err(StockrsError::Validation { .. })));
    assert_eq!(shift_time_of_day(23, 59, 0).unwrap(), (23, 59));
    assert!(shift_time_of_day(23, 59, 1).is_err());
    assert!(shift_time_of_day(u32::MAX, u32::MAX, i32::MIN).is_err());
    assert_eq!(scheduled_time("12:00:00", Some(-45)).unwrap(), (11, 15));
    assert_eq!(scheduled_time("12:00:00", None).unwrap(), (12, 0));
    assert!(scheduled_time("noon", Some(0)).is_err());
}

#[test]
fn timestamps_are_written_with_padded_digits() {
    let t = Timestamp { year: 2024, month: 3, day: 4, hour: 9, minute: 5, second: 59 };
    assert_eq!(format_ymd(&t), "20240304");
    assert_eq!(format_ymdhm(&t), "202403040905");
    let early = Timestamp { year: 7, month: 12, day: 31, hour: 23, minute: 59, second: 0 };
    assert_eq!(format_ymdhm(&early), "000712312359");
    assert_eq!(format_hhmm(&t), "0905");
    let far = Timestamp { year: 12345, month: 1, day: 2, hour: 3, minute: 4, second: 0 };
    assert_eq!(format_ymdhm(&far), "+1234501020304");
    let bce = Timestamp { year: -1, month: 1, day: 2, hour: 3, minute: 4, second: 0 };
    assert_eq!(format_ymd(&bce), "-00010102");
    let bce_far = Timestamp { year: -262143, month: 1, day: 2, hour: 0, minute: 0, second: 0 };
    assert_eq!(format_ymd(&bce_far), "-2621430102");
    assert_eq!(format_hhmm(&early), "2359");
}

#[test]
fn high_and_low_follow_the_balances_seen() {
    assert_eq!(update_high_low(100, 100, 120), (120, 100));
    assert_eq!(update_high_low(120, 100, 90), (120, 90));
    assert_eq!(update_high_low(120, 90, 100), (120, 90));
}

#[test]
fn daily_result_from_open_and_close() {
    let up = daily_result(1_000_000, 1_050_000);
    assert_eq!(up, DailyResult { profit: 50_000, roi_numer: 5_000_000, roi_denom: 1_000_000 });
    assert_eq!(up.roi_numer as f64 / up.roi_denom as f64, 5.0);
    let down = daily_result(2_000, 1_500);
    assert_eq!(down.profit, -500);
    assert_eq!(down.roi_numer as f64 / down.roi_denom as f64, -25.0);
}

#[test]
fn db_results_wrap_results() {
    assert_eq!(DBResult::ok(5).into_result().unwrap(), 5);
    let e: DBResult<u32> = DBResult::err(StockrsError::General { message: "x".to_string() });
    assert!(e.as_result().is_err());
    assert!(DBResult::from_result(Ok::<u8, StockrsError>(1)).as_result().is_ok());
}

#[test]
fn backtest_mode_carries_the_replayed_time() {
    let live = BacktestMode::normal();
    assert!(!live.is_backtest);
    assert_eq!(live.time_str(), None);
    let replay = BacktestMode::backtest("202403040930".to_string());
    assert!(replay.is_backtest);
    assert_eq!(replay.time_str(), Some("202403040930"));
    assert!(BacktestMode::for_time(Some("1".to_string())).is_backtest);
    assert!(!BacktestMode::for_time(None).is_backtest);
}

struct Account {
    kind: ApiKind,
}

impl StockApi for Account {
    fn kind(&self) -> ApiKind {
        self.kind
    }

    fn api_kind(&self) -> ApiKind {
        self.kind
    }
    fn execute_order(&self, _order: &mut Order) -> StockrsResult<String> {
        Ok("1".to_string())
    }
    fn check_fill(&self, _order_id: &str) -> StockrsResult<bool> {
        Ok(true)
    }
    fn cancel_order(&self, _order_id: &str) -> StockrsResult<()> {
        Ok(())
    }
    fn get_balance(&self) -> StockrsResult<AssetInfo> {
        Ok(AssetInfo::new(at(15, 30), 1_000))
    }
    fn get_avg_price(&self, _stockcode: &str) -> StockrsResult<u64> {
        Ok(1)
    }
    fn get_current_price(&self, _stockcode: &str) -> StockrsResult<u64> {
        Ok(1)
    }
    fn get_current_price_at_time(&self, _stockcode: &str, _time_str: &str) -> StockrsResult<u64> {
        Ok(1)
    }
    fn calculate_balance_at_time(&self, time_str: &str) -> StockrsResult<AssetInfo> {
        Ok(AssetInfo::new(at(9, 0), time_str.len() as u64))
    }
    fn get_order_fill_info(&self, _order_id: &str) -> StockrsResult<Option<FillInfo>> {
        Ok(None)
    }
}

#[test]
fn balances_are_read_as_the_mode_calls_for() {
    let backtest = Rc::new(Account { kind: ApiKind::Backtest });
    let detector = ApiTypeDetector::new(backtest.clone());
    let replay = BacktestMode::backtest("202403040930".to_string());
    assert_eq!(get_balance_with_mode(&backtest, &detector, &replay).into_result().unwrap().get_asset(), 12);
    assert_eq!(get_balance_with_mode(&backtest, &detector, &BacktestMode::normal()).into_result().unwrap().get_asset(), 1_000);
    let live = Rc::new(Account { kind: ApiKind::Korea });
    let live_detector = ApiTypeDetector::new(live.clone());
    assert_eq!(live_detector.calculate_balance_in_backtest("2024").unwrap().get_asset(), 1_000);
    assert_eq!(get_balance_with_mode(&live, &live_detector, &replay).into_result().unwrap().get_asset(), 1_000);
}

#[test]
fn the_stand_in_answers_fixed_values() {
    let api = DbApi::new().unwrap();
    assert_eq!(api.api_kind(), ApiKind::Db);
    let mut o = Order {
        date: at(9, 0),
        stockcode: "005930".to_string(),
        side: OrderSide::Buy,
        quantity: 1,
        price: 1,
        fee: 0,
        strategy: "t".to_string(),
    };
    assert_eq!(api.execute_order(&mut o).unwrap(), "DUMMY_ORDER_001");
    assert!(api.check_fill("x").unwrap());
    assert!(api.cancel_order("x").is_ok());
    let balance = api.get_balance().unwrap();
    assert_eq!(balance.get_asset(), DB_API_BALANCE);
    // stamped with the local clock
    assert!(balance.date.year >= 2024 && (1..=12).contains(&balance.date.month));
    assert_eq!(DB_API_BALANCE, 10_000_000);
    assert_eq!(api.get_avg_price("x").unwrap(), DB_API_AVG_PRICE);
    assert_eq!(DB_API_AVG_PRICE, 50_000);
    assert_eq!(api.get_current_price("x").unwrap(), DB_API_CURRENT_PRICE);
    assert_eq!(DB_API_CURRENT_PRICE, 52_000);
    assert!(matches!(api.get_current_price_at_time("x", "t"), Err(StockrsError::UnsupportedFeature { .. })));
    assert!(matches!(api.calculate_balance_at_time("t"), Err(StockrsError::UnsupportedFeature { .. })));
    assert!(matches!(api.get_order_fill_info("t"), Err(StockrsError::UnsupportedFeature { .. })));
}

#[test]
fn mode_names() {
    assert_eq!(ApiMode::Real.mode_name(), "실거래");
    assert_eq!(ApiMode::Paper.mode_name(), "모의투자");
    assert_eq!(ApiMode::Info.mode_name(), "정보용 실전 API");
}

struct Factory;

impl ApiFactory for Factory {
    type Api = Account;
    fn create_api(&self, api_type: ApiType, trading: bool) -> Account {
        assert!(!trading);
        match api_type {
            ApiType::Backtest => Account { kind: ApiKind::Backtest },
            _ => Account { kind: ApiKind::Korea },
        }
    }
}

#[test]
fn data_readers_by_kind() {
    let db = DbDataReader;
    assert_eq!(db.get_asset_info().unwrap().get_asset(), DB_READER_ASSET);
    assert_eq!(DB_READER_ASSET, 1_000_000);
    assert_eq!(db.get_avg_price("x".to_string()).unwrap(), DB_READER_AVG_PRICE);
    assert_eq!(DB_READER_AVG_PRICE, 70_000);
    assert!(matches!(make_data_reader(DataReaderType::DB, &Factory), AnyDataReader::Db(_)));
    let real = make_data_reader(DataReaderType::REAL, &Factory);
    assert!(matches!(real, AnyDataReader::Api(_)));
    assert_eq!(real.get_asset_info().unwrap().get_asset(), 1_000);
    assert!(matches!(real.get_avg_price("x".to_string()), Err(StockrsError::UnsupportedFeature { .. })));
    assert!(matches!(make_data_reader(DataReaderType::PAPER, &Factory), AnyDataReader::Api(_)));
}

#[test]
fn superseded_order_functions_refuse() {
    let o = Order {
        date: at(9, 0),
        stockcode: "005930".to_string(),
        side: OrderSide::Sell,
        quantity: 1,
        price: 1,
        fee: 0,
        strategy: "t".to_string(),
    };
    assert!(matches!(koreainvestapi::execute_order(&o), Err(StockrsError::UnsupportedFeature { .. })));
    assert!(matches!(koreainvestapi::check_fill("1"), Err(StockrsError::UnsupportedFeature { .. })));
    assert!(matches!(koreainvestapi::cancel_order("1"), Err(StockrsError::UnsupportedFeature { .. })));
}

#[test]
fn price_moves_in_hundredths_of_a_percent() {
    assert!(rate_is_at_most(9_900, 10_000, -100));
    assert!(!rate_is_at_most(9_901, 10_000, -100));
    assert!(rate_is_at_least(10_200, 10_000, 200));
    assert!(!rate_is_at_least(10_199, 10_000, 200));
    // a zero base follows floating-point division
    assert!(!rate_is_at_most(0, 0, -100));
    assert!(!rate_is_at_least(0, 0, 200));
    assert!(rate_is_at_least(1, 0, 200));
}

#[test]
fn quantity_for_a_share_of_the_assets() {
    assert_eq!(quantity_for_ratio(10_000_000, 9000, 10_000), 900);
    assert_eq!(quantity_for_ratio(10_000_000, 9000, 10_001), 899);
    assert_eq!(quantity_for_ratio(10_000_000, 0, 10_000), 0);
    assert_eq!(quantity_for_ratio(10_000_000, -100, 10_000), 0);
    assert_eq!(quantity_for_ratio(10_000_000, 9000, 0), u32::MAX);
    assert_eq!(quantity_for_ratio(u64::MAX, i64::MAX, 1), u32::MAX);
}

#[test]
fn text_helpers() {
    assert_eq!(chars_of("가a"), vec!['가', 'a']);
    assert_eq!(parse_u32(&chars_of("+42")), Some(42));
    assert_eq!(parse_u32(&chars_of("")), None);
    assert_eq!(parse_u32(&chars_of("+")), None);
    assert_eq!(parse_u32(&chars_of("-1")), None);
    let parts = split_fields(&chars_of("a::b"), ':');
    assert_eq!(parts, vec![vec!['a'], vec![], vec!['b']]);
    assert!(contains_chars(&chars_of("ab YOUR_KEY"), &chars_of("YOUR_")));
    assert!(!contains_chars(&chars_of("YOUR"), &chars_of("YOUR_")));
    assert!(eq_ignore_ascii_case(&chars_of("InFo"), &chars_of("info")));
    assert!(!eq_ignore_ascii_case(&chars_of("infos"), &chars_of("info")));
    assert!(str_equals("real", "real"));
    assert!(!str_equals("real", "Real"));
}

#[test]
fn ticks_fall_before_in_or_after_the_session() {
    let open = (9, 0);
    let close = (15, 20);
    assert_eq!(session_phase(&at(8, 59), open, close), SessionPhase::BeforeOpen);
    assert_eq!(session_phase(&at(9, 0), open, close), SessionPhase::Open);
    assert_eq!(session_phase(&at(15, 20), open, close), SessionPhase::Open);
    assert_eq!(session_phase(&at(15, 21), open, close), SessionPhase::AfterClose);
}

#[test]
fn overview_rows_open_then_track_high_and_low() {
    assert_eq!(overview_on_balance(None, 500), OverviewWrite::Insert { open: 500, high: 500, low: 500 });
    assert_eq!(overview_on_balance(Some((500, 500)), 650), OverviewWrite::Update { high: 650, low: 500 });
    assert_eq!(overview_on_balance(Some((650, 500)), 420), OverviewWrite::Update { high: 650, low: 420 });
}

#[test]
fn closing_result_falls_back_to_the_close() {
    assert_eq!(closing_result(Some(1_000), 1_100), daily_result(1_000, 1_100));
    let flat = closing_result(None, 1_100);
    assert_eq!((flat.profit, flat.roi_numer, flat.roi_denom), (0, 0, 1_100));
}

#[test]
fn backtesting_accounts_are_asked_for_the_balance_at_a_time() {
    assert_eq!(balance_call(ApiKind::Backtest), BalanceCall::AtTime);
    assert_eq!(balance_call(ApiKind::Korea), BalanceCall::Current);
    assert_eq!(balance_call(ApiKind::Db), BalanceCall::Current);
}

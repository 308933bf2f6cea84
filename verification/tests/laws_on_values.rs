use stockrs::broker::check_funds;
use stockrs::calendar::{
    day20_days_to_month_end, day20_is_half_year_end, day20_is_month_end, day20_is_month_start,
    day20_is_quarter_end, day21_fiscal_year_end_flag, day21_santa_rally_flag,
    day21_turn_of_month_effect, day21_turn_of_quarter_effect, day21_window_dressing_flag,
    parse_date_flexible, CalendarDate,
};
use stockrs::clock::{format_ymd, shift_time_of_day};
use stockrs::model::minseop::{MinseopModel, MinseopSettings};
use stockrs::types::{quantity_for_ratio, Order, OrderSide, Timestamp};
use stockrs::universe::get_table_name;

#[test]
fn calendar_flags_nest_on_sample_days() {
    for date in [
        "2024-01-31", "2024-02-29", "2024-03-31", "2024-06-30", "2024-12-31", "2024-12-30",
        "2024-06-29", "2024-03-01", "2023-12-31", "2024-09-30", "2024-09-27",
    ] {
        let half = day20_is_half_year_end(date).unwrap();
        let quarter = day20_is_quarter_end(date).unwrap();
        let month_end = day20_is_month_end(date).unwrap();
        let left = day20_days_to_month_end(date).unwrap();
        assert!(!half || quarter, "{}", date);
        assert!(!quarter || month_end, "{}", date);
        assert_eq!(month_end, left.numer == 1, "{}", date);
        assert_eq!(day20_is_month_start(date).unwrap(), left.numer == left.denom, "{}", date);
        if quarter {
            assert!(day21_window_dressing_flag(date).unwrap(), "{}", date);
            assert!(day21_turn_of_quarter_effect(date).unwrap(), "{}", date);
        }
        if day21_turn_of_quarter_effect(date).unwrap() {
            assert!(day21_turn_of_month_effect(date).unwrap(), "{}", date);
        }
        if day21_fiscal_year_end_flag(date).unwrap() {
            assert!(day21_santa_rally_flag(date).unwrap(), "{}", date);
        }
    }
}

#[test]
fn both_date_layouts_name_the_same_day() {
    assert_eq!(parse_date_flexible("2024-03-04").unwrap(), parse_date_flexible("20240304").unwrap());
    assert_eq!(parse_date_flexible("2024-02-29").unwrap(), CalendarDate { year: 2024, month: 2, day: 29 });
    assert!(parse_date_flexible("20230229").is_err());
}

#[test]
fn a_written_day_reads_back() {
    for (year, month, day) in [(2024, 3, 4), (7, 1, 1), (9999, 12, 31), (2000, 2, 29)] {
        let t = Timestamp { year, month, day, hour: 13, minute: 5, second: 0 };
        let text = format_ymd(&t);
        assert_eq!(parse_date_flexible(&text).unwrap(), CalendarDate { year, month, day });
    }
}

#[test]
fn table_names_are_stable() {
    for code in ["005930", "A005930", "", "AA", "b"] {
        let once = get_table_name(code);
        assert_eq!(get_table_name(&once), once);
        assert!(once.starts_with('A'));
        assert!(once.ends_with(code));
    }
}

#[test]
fn more_assets_never_buy_fewer_shares() {
    let mut last = 0;
    for asset in [0u64, 9_999, 10_000, 11_111, 1_000_000, 55_555_555, 10_000_000_000] {
        let q = quantity_for_ratio(asset, 9000, 10_000);
        assert!(q >= last);
        last = q;
    }
}

#[test]
fn a_larger_balance_still_covers_an_order() {
    let o = Order {
        date: Timestamp { year: 2024, month: 1, day: 2, hour: 9, minute: 0, second: 0 },
        stockcode: "005930".to_string(),
        side: OrderSide::Buy,
        quantity: 7,
        price: 71_000,
        fee: 0,
        strategy: "t".to_string(),
    };
    assert!(check_funds(&o, 497_075).is_ok());
    assert!(check_funds(&o, 497_074).is_err());
    for asset in [497_075u64, 500_000, 10_000_000] {
        assert!(check_funds(&o, asset).is_ok());
    }
}

#[test]
fn minseop_falls_back_to_its_share_of_the_assets() {
    let off = MinseopModel::new(Some(MinseopSettings {
        stop_loss_pct: 100,
        take_profit_pct: 200,
        entry_time: "09:30:00".to_string(),
        force_close_time: "12:00:00".to_string(),
        entry_asset_ratio: 9000,
        fixed_entry_amount: -1,
    }));
    assert_eq!(off.entry_quantity(10_000, 10_000_000), quantity_for_ratio(10_000_000, 9000, 10_000));
    let on = MinseopModel::new(None);
    assert_eq!(on.entry_quantity(10_000, 999_999), quantity_for_ratio(999_999, 9000, 10_000));
}

#[test]
fn a_shift_is_undone_by_the_opposite_shift() {
    for (h, m, offset) in [(9, 30, 60), (12, 0, -30), (0, 0, 1439), (23, 59, -1439), (15, 20, 0)] {
        let (h2, m2) = shift_time_of_day(h, m, offset).unwrap();
        assert_eq!(shift_time_of_day(h2, m2, -offset).unwrap(), (h, m));
    }
}

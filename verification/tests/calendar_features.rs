use stockrs::calendar::{
    day20_days_to_month_end, day20_is_friday, day20_is_half_year_end, day20_is_monday,
    day20_is_month_end, day20_is_month_start, day20_is_quarter_end, day20_is_thursday,
    day20_is_tuesday, day20_is_wednesday, day21_dayofweek_return_seasonality,
    day21_fiscal_year_end_flag, day21_monthly_return_seasonality, day21_santa_rally_flag,
    day21_summer_holiday_flag, day21_triple_witching_flag, day21_turn_of_month_effect,
    day21_turn_of_quarter_effect, day21_week_of_year_norm, day21_window_dressing_flag,
    parse_date_flexible, Ratio,
};

/// A flag feature as the model reads it.
fn feature(flag: bool) -> f64 {
    if flag {
        1.0
    } else {
        0.0
    }
}

/// A graded feature as the model reads it.
fn value(r: Ratio) -> f64 {
    r.numer as f64 / r.denom as f64
}

#[test]
fn test_day20_is_monday() {
    assert_eq!(feature(day20_is_monday("2024-01-01").unwrap()), 1.0);
    assert_eq!(feature(day20_is_monday("2024-01-02").unwrap()), 0.0);
}

#[test]
fn test_day20_is_month_start() {
    assert_eq!(feature(day20_is_month_start("2024-01-01").unwrap()), 1.0);
    assert_eq!(feature(day20_is_month_start("2024-01-15").unwrap()), 0.0);
}

#[test]
fn test_day20_is_month_end() {
    assert_eq!(feature(day20_is_month_end("2024-01-31").unwrap()), 1.0);
    assert_eq!(feature(day20_is_month_end("2024-01-15").unwrap()), 0.0);
    assert_eq!(feature(day20_is_month_end("2024-02-29").unwrap()), 1.0);
}

#[test]
fn test_day20_days_to_month_end() {
    assert_eq!(value(day20_days_to_month_end("2024-01-01").unwrap()), 1.0);
    assert_eq!(value(day20_days_to_month_end("2024-01-31").unwrap()), 1.0 / 31.0);
    assert_eq!(value(day20_days_to_month_end("2024-01-16").unwrap()), 16.0 / 31.0);
}

#[test]
fn test_day20_is_quarter_end() {
    assert_eq!(feature(day20_is_quarter_end("2024-03-31").unwrap()), 1.0);
    assert_eq!(feature(day20_is_quarter_end("2024-06-30").unwrap()), 1.0);
    assert_eq!(feature(day20_is_quarter_end("2024-09-30").unwrap()), 1.0);
    assert_eq!(feature(day20_is_quarter_end("2024-12-31").unwrap()), 1.0);
    assert_eq!(feature(day20_is_quarter_end("2024-01-31").unwrap()), 0.0);
}

#[test]
fn test_day20_is_half_year_end() {
    assert_eq!(feature(day20_is_half_year_end("2024-06-30").unwrap()), 1.0);
    assert_eq!(feature(day20_is_half_year_end("2024-12-31").unwrap()), 1.0);
    assert_eq!(feature(day20_is_half_year_end("2024-03-31").unwrap()), 0.0);
}

#[test]
fn test_day21_santa_rally_flag() {
    assert_eq!(feature(day21_santa_rally_flag("2024-12-15").unwrap()), 1.0);
    assert_eq!(feature(day21_santa_rally_flag("2024-12-31").unwrap()), 1.0);
    assert_eq!(feature(day21_santa_rally_flag("2024-12-14").unwrap()), 0.0);
    assert_eq!(feature(day21_santa_rally_flag("2024-11-30").unwrap()), 0.0);
}

#[test]
fn test_day21_summer_holiday_flag() {
    assert_eq!(feature(day21_summer_holiday_flag("2024-08-10").unwrap()), 1.0);
    assert_eq!(feature(day21_summer_holiday_flag("2024-08-25").unwrap()), 1.0);
    assert_eq!(feature(day21_summer_holiday_flag("2024-08-09").unwrap()), 0.0);
    assert_eq!(feature(day21_summer_holiday_flag("2024-08-26").unwrap()), 0.0);
}

#[test]
fn test_day21_turn_of_month_effect() {
    assert_eq!(feature(day21_turn_of_month_effect("2024-01-01").unwrap()), 1.0);
    assert_eq!(feature(day21_turn_of_month_effect("2024-01-03").unwrap()), 1.0);
    assert_eq!(feature(day21_turn_of_month_effect("2024-01-04").unwrap()), 0.0);
    assert_eq!(feature(day21_turn_of_month_effect("2024-01-29").unwrap()), 1.0);
    assert_eq!(feature(day21_turn_of_month_effect("2024-01-31").unwrap()), 1.0);
}

#[test]
fn test_day21_turn_of_quarter_effect() {
    assert_eq!(feature(day21_turn_of_quarter_effect("2024-03-01").unwrap()), 1.0);
    assert_eq!(feature(day21_turn_of_quarter_effect("2024-03-03").unwrap()), 1.0);
    assert_eq!(feature(day21_turn_of_quarter_effect("2024-03-04").unwrap()), 0.0);
    assert_eq!(feature(day21_turn_of_quarter_effect("2024-03-29").unwrap()), 1.0);
    assert_eq!(feature(day21_turn_of_quarter_effect("2024-03-31").unwrap()), 1.0);
}

#[test]
fn test_day21_week_of_year_norm() {
    let week1 = value(day21_week_of_year_norm("2024-01-01").unwrap());
    let week26 = value(day21_week_of_year_norm("2024-06-24").unwrap());
    let week52 = value(day21_week_of_year_norm("2024-12-23").unwrap());
    assert!((week1 - 0.019).abs() < 0.1);
    assert!((week26 - 0.5).abs() < 0.1);
    assert!((week52 - 1.0).abs() < 0.1);
}

#[test]
fn test_day21_triple_witching_flag() {
    assert_eq!(feature(day21_triple_witching_flag("2024-03-15").unwrap()), 1.0);
    assert_eq!(feature(day21_triple_witching_flag("2024-03-22").unwrap()), 0.0);
    assert_eq!(feature(day21_triple_witching_flag("2024-03-14").unwrap()), 0.0);
    assert_eq!(feature(day21_triple_witching_flag("2024-06-21").unwrap()), 1.0);
    assert_eq!(feature(day21_triple_witching_flag("2024-01-19").unwrap()), 0.0);
}

#[test]
fn test_day21_window_dressing_flag() {
    assert_eq!(feature(day21_window_dressing_flag("2024-12-27").unwrap()), 1.0);
    assert_eq!(feature(day21_window_dressing_flag("2024-12-31").unwrap()), 1.0);
    assert_eq!(feature(day21_window_dressing_flag("2024-12-26").unwrap()), 0.0);
    assert_eq!(feature(day21_window_dressing_flag("2024-01-27").unwrap()), 0.0);
}

#[test]
fn test_day21_fiscal_year_end_flag() {
    assert_eq!(feature(day21_fiscal_year_end_flag("2024-12-20").unwrap()), 1.0);
    assert_eq!(feature(day21_fiscal_year_end_flag("2024-12-31").unwrap()), 1.0);
    assert_eq!(feature(day21_fiscal_year_end_flag("2024-12-19").unwrap()), 0.0);
    assert_eq!(feature(day21_fiscal_year_end_flag("2024-11-30").unwrap()), 0.0);
}

#[test]
fn test_day21_monthly_return_seasonality() {
    let jan = value(day21_monthly_return_seasonality("2024-01-15").unwrap());
    let apr = value(day21_monthly_return_seasonality("2024-04-15").unwrap());
    let dec = value(day21_monthly_return_seasonality("2024-12-15").unwrap());
    assert!((jan - 0.51).abs() < 0.1);
    assert!((apr - 0.51).abs() < 0.1);
    assert!((dec - 0.52).abs() < 0.1);
}

#[test]
fn test_day21_dayofweek_return_seasonality() {
    let mon = value(day21_dayofweek_return_seasonality("2024-01-01").unwrap());
    let fri = value(day21_dayofweek_return_seasonality("2024-01-05").unwrap());
    assert!((mon - 0.505).abs() < 0.1);
    assert!((fri - 0.515).abs() < 0.1);
}

#[test]
fn weekday_flags_cover_each_weekday_once() {
    // 2024-01-01 is a Monday, so the 1st to the 5th run Monday to Friday.
    let days = ["2024-01-01", "2024-01-02", "2024-01-03", "2024-01-04", "2024-01-05"];
    for (i, day) in days.iter().enumerate() {
        let flags = [
            day20_is_monday(day).unwrap(),
            day20_is_tuesday(day).unwrap(),
            day20_is_wednesday(day).unwrap(),
            day20_is_thursday(day).unwrap(),
            day20_is_friday(day).unwrap(),
        ];
        for (j, f) in flags.iter().enumerate() {
            assert_eq!(*f, i == j);
        }
    }
    // A Saturday is none of them.
    assert!(!day20_is_friday("2024-01-06").unwrap());
    assert!(!day20_is_monday("2024-01-06").unwrap());
}

#[test]
fn weekday_matches_known_dates() {
    // 1970-01-01 was a Thursday; 2000-02-29 a Tuesday; 1999-12-31 a Friday.
    assert!(day20_is_thursday("1970-01-01").unwrap());
    assert!(day20_is_tuesday("2000-02-29").unwrap());
    assert!(day20_is_friday("19991231").unwrap());
}

#[test]
fn iso_week_at_year_boundaries() {
    // 2021-01-01 belongs to week 53 of 2020; 2024-12-30 to week 1 of 2025.
    assert_eq!(day21_week_of_year_norm("2021-01-01").unwrap(), Ratio { numer: 53, denom: 52 });
    assert_eq!(day21_week_of_year_norm("2024-12-30").unwrap(), Ratio { numer: 1, denom: 52 });
    assert_eq!(day21_week_of_year_norm("2023-01-01").unwrap(), Ratio { numer: 52, denom: 52 });
}

#[test]
fn date_layouts_and_rejections() {
    let a = parse_date_flexible("2024-02-29").unwrap();
    let b = parse_date_flexible("20240229").unwrap();
    assert_eq!(a, b);
    assert_eq!((a.year, a.month, a.day), (2024, 2, 29));
    // Not a leap year, not a month, not a layout.
    assert!(parse_date_flexible("2023-02-29").is_err());
    assert!(parse_date_flexible("2024-13-01").is_err());
    assert!(parse_date_flexible("2024/01/01").is_err());
    assert!(parse_date_flexible("2024-1-01").is_err());
    assert!(parse_date_flexible("").is_err());
    assert!(day20_is_monday("not a date").is_err());
}

#[test]
fn month_lengths_in_days_to_month_end() {
    assert_eq!(day20_days_to_month_end("2023-02-01").unwrap(), Ratio { numer: 28, denom: 28 });
    assert_eq!(day20_days_to_month_end("2024-02-29").unwrap(), Ratio { numer: 1, denom: 29 });
    assert_eq!(day20_days_to_month_end("2024-04-30").unwrap(), Ratio { numer: 1, denom: 30 });
    assert_eq!(day20_days_to_month_end("1900-02-28").unwrap(), Ratio { numer: 1, denom: 28 });
}

#[test]
fn seasonality_tables() {
    assert_eq!(day21_monthly_return_seasonality("2024-05-02").unwrap(), Ratio { numer: 99, denom: 200 });
    assert_eq!(day21_dayofweek_return_seasonality("2024-01-06").unwrap(), Ratio { numer: 100, denom: 200 });
    assert_eq!(day21_dayofweek_return_seasonality("2024-01-03").unwrap(), Ratio { numer: 101, denom: 200 });
}

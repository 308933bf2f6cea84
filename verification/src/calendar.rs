//! Calendar features of a trading day: weekday, month and quarter
//! boundaries, seasonal windows and fixed seasonal tables.
//!
//! Every feature reads a date written `YYYY-MM-DD` or `YYYYMMDD`. A flag
//! feature answers with a `bool` (the model reads it as 1 or 0); a graded
//! feature answers with a `Ratio` whose quotient is the feature's value.
use vstd::prelude::*;
use chrono::Datelike;
use crate::error::{StockrsError, StockrsResult};
use crate::text::{all_digits, chars_of, decimal_value, read_decimal};

verus! {

/// The earliest year that chrono's `NaiveDate` can hold.
pub const CHRONO_MIN_YEAR: i32 = -262143;

/// The latest year that chrono's `NaiveDate` can hold.
pub const CHRONO_MAX_YEAR: i32 = 262142;

/// Leap years of the proleptic Gregorian calendar.
pub open spec fn is_leap_year(year: int) -> bool {
    year % 4 == 0 && (year % 100 != 0 || year % 400 == 0)
}

/// The last day of `month` in `year`.
pub open spec fn month_last_day(year: int, month: int) -> int {
    if month == 2 {
        if is_leap_year(year) {
            29
        } else {
            28
        }
    } else if month == 4 || month == 6 || month == 9 || month == 11 {
        30
    } else {
        31
    }
}

/// A day that exists in the calendar and that chrono can represent.
pub open spec fn valid_ymd(year: int, month: int, day: int) -> bool {
    &&& CHRONO_MIN_YEAR <= year <= CHRONO_MAX_YEAR
    &&& 1 <= month <= 12
    &&& 1 <= day <= month_last_day(year, month)
}

/// Days from 1970-01-01 to the given day (negative before it).
pub open spec fn days_from_civil(year: int, month: int, day: int) -> int {
    let y = if month <= 2 { year - 1 } else { year };
    let era = y / 400;
    let yoe = y - era * 400;
    let mp = (month + 9) % 12;
    let doy = (153 * mp + 2) / 5 + day - 1;
    let doe = yoe * 365 + yoe / 4 - yoe / 100 + doy;
    era * 146097 + doe - 719468
}

/// Day of the week counted from Monday: 0 is Monday, 6 is Sunday.
pub open spec fn weekday_spec(year: int, month: int, day: int) -> int {
    (days_from_civil(year, month, day) + 3) % 7
}

/// The number of ISO weeks in `year`.
pub open spec fn iso_weeks_in_year(year: int) -> int {
    let jan1 = weekday_spec(year, 1, 1);
    if jan1 == 3 || (is_leap_year(year) && jan1 == 2) {
        53
    } else {
        52
    }
}

/// The ISO 8601 week number of the given day.
pub open spec fn iso_week_spec(year: int, month: int, day: int) -> int {
    let ordinal = days_from_civil(year, month, day) - days_from_civil(year, 1, 1) + 1;
    let w = (ordinal - (weekday_spec(year, month, day) + 1) + 10) / 7;
    if w < 1 {
        iso_weeks_in_year(year - 1)
    } else if w > iso_weeks_in_year(year) {
        1
    } else {
        w
    }
}

/// Asks chrono whether the day exists (`NaiveDate::from_ymd_opt`).
/// Trusted: chrono accepts exactly the Gregorian days of its year range.
#[verifier::external_body]
fn chrono_date_exists(year: i32, month: u32, day: u32) -> (b: bool)
    ensures
        b == valid_ymd(year as int, month as int, day as int),
{
    chrono::NaiveDate::from_ymd_opt(year, month, day).is_some()
}

/// Asks chrono for the day of the week (`Datelike::weekday`, then
/// `Weekday::num_days_from_monday`). Trusted: the result is the weekday of
/// the Gregorian calendar, counted from Monday.
#[verifier::external_body]
fn chrono_weekday(year: i32, month: u32, day: u32) -> (w: u32)
    requires
        valid_ymd(year as int, month as int, day as int),
    ensures
        w as int == weekday_spec(year as int, month as int, day as int),
{
    chrono::NaiveDate::from_ymd_opt(year, month, day).unwrap().weekday().num_days_from_monday()
}

/// Asks chrono for the ISO week number (`Datelike::iso_week`, then
/// `IsoWeek::week`). Trusted: the result is the ISO 8601 week number.
#[verifier::external_body]
fn chrono_iso_week(year: i32, month: u32, day: u32) -> (w: u32)
    requires
        valid_ymd(year as int, month as int, day as int),
    ensures
        w as int == iso_week_spec(year as int, month as int, day as int),
{
    chrono::NaiveDate::from_ymd_opt(year, month, day).unwrap().iso_week().week()
}

/// A day of the calendar.
#[derive(Clone, Copy, Debug, PartialEq, Eq, Structural)]
pub struct CalendarDate {
    pub year: i32,
    pub month: u32,
    pub day: u32,
}

impl CalendarDate {
    /// The day exists.
    pub open spec fn wf(self) -> bool {
        valid_ymd(self.year as int, self.month as int, self.day as int)
    }

    /// Day of the week counted from Monday.
    pub open spec fn weekday(self) -> int {
        weekday_spec(self.year as int, self.month as int, self.day as int)
    }

    /// The last day of this date's month.
    pub open spec fn last_day(self) -> int {
        month_last_day(self.year as int, self.month as int)
    }
}

/// A quotient of two whole numbers, standing for a fractional feature value.
#[derive(Clone, Copy, Debug, PartialEq, Eq, Structural)]
pub struct Ratio {
    pub numer: u32,
    pub denom: u32,
}

/// The numbers written in a date string, for the two accepted layouts.
pub open spec fn date_fields_spec(s: Seq<char>) -> Option<(int, int, int)> {
    if s.len() == 10 && s[4] == '-' && s[7] == '-' && all_digits(s.subrange(0, 4)) && all_digits(
        s.subrange(5, 7),
    ) && all_digits(s.subrange(8, 10)) {
        Some(
            (
                decimal_value(s.subrange(0, 4)),
                decimal_value(s.subrange(5, 7)),
                decimal_value(s.subrange(8, 10)),
            ),
        )
    } else if s.len() == 8 && all_digits(s) {
        Some(
            (
                decimal_value(s.subrange(0, 4)),
                decimal_value(s.subrange(4, 6)),
                decimal_value(s.subrange(6, 8)),
            ),
        )
    } else {
        None
    }
}

/// The day a date string names, if it is well formed and exists.
pub open spec fn parse_date_spec(s: Seq<char>) -> Option<CalendarDate> {
    match date_fields_spec(s) {
        Some((y, m, d)) => if valid_ymd(y, m, d) {
            Some(CalendarDate { year: y as i32, month: m as u32, day: d as u32 })
        } else {
            None
        },
        None => None,
    }
}

proof fn lemma_digits_sub(s: Seq<char>, a: int, b: int)
    requires
        all_digits(s),
        0 <= a <= b <= s.len(),
    ensures
        all_digits(s.subrange(a, b)),
{
    assert forall|i: int| 0 <= i < b - a implies crate::text::is_digit(
        #[trigger] s.subrange(a, b)[i],
    ) by {
        assert(s.subrange(a, b)[i] == s[a + i]);
    }
}

fn all_digit_range(s: &Vec<char>, from: usize, to: usize) -> (r: bool)
    requires
        from <= to <= s@.len(),
    ensures
        r == all_digits(s@.subrange(from as int, to as int)),
{
    let mut i = from;
    while i < to
        invariant
            from <= i <= to <= s@.len(),
            all_digits(s@.subrange(from as int, i as int)),
        decreases to - i,
    {
        let c = s[i];
        if !('0' <= c && c <= '9') {
            assert(s@.subrange(from as int, to as int)[i - from] == c);
            return false;
        }
        assert forall|k: int| 0 <= k < i + 1 - from implies crate::text::is_digit(
            #[trigger] s@.subrange(from as int, i + 1)[k],
        ) by {
            if k < i - from {
                assert(s@.subrange(from as int, i + 1)[k] == s@.subrange(from as int, i as int)[k]);
            }
        }
        i = i + 1;
    }
    true
}

fn date_error(date: &str) -> (e: StockrsError)
    ensures
        e matches StockrsError::Parsing { data_type, reason } && data_type@ == "date"@ && reason@
            == date@,
{
    StockrsError::Parsing { data_type: String::from_str("date"), reason: date.to_owned() }
}

/// Reads a date written `YYYY-MM-DD` or `YYYYMMDD`.
pub fn parse_date_flexible(date: &str) -> (r: StockrsResult<CalendarDate>)
    ensures
        match parse_date_spec(date@) {
            Some(d) => r == Ok::<CalendarDate, StockrsError>(d),
            None => r is Err,
        },
        r matches Ok(d) ==> d.wf(),
{
    let s = chars_of(date);
    let n = s.len();
    let (y, m, d): (u64, u64, u64);
    if n == 10 && s[4] == '-' && s[7] == '-' && all_digit_range(&s, 0, 4) && all_digit_range(
        &s,
        5,
        7,
    ) && all_digit_range(&s, 8, 10) {
        y = read_decimal(&s, 0, 4);
        m = read_decimal(&s, 5, 7);
        d = read_decimal(&s, 8, 10);
    } else if n == 8 && all_digit_range(&s, 0, 8) {
        proof {
            assert(s@.subrange(0, 8) =~= s@);
            lemma_digits_sub(s@, 0, 4);
            lemma_digits_sub(s@, 4, 6);
            lemma_digits_sub(s@, 6, 8);
        }
        y = read_decimal(&s, 0, 4);
        m = read_decimal(&s, 4, 6);
        d = read_decimal(&s, 6, 8);
    } else {
        proof {
            if n == 8 {
                assert(s@.subrange(0, 8) =~= s@);
            }
        }
        return Err(date_error(date));
    }
    proof {
        reveal_with_fuel(crate::text::pow10, 5);
    }
    let (yy, mm, dd) = (y as i32, m as u32, d as u32);
    if chrono_date_exists(yy, mm, dd) {
        Ok(CalendarDate { year: yy, month: mm, day: dd })
    } else {
        Err(date_error(date))
    }
}

/// The last day of the date's month, as the feature code reckons it.
pub fn last_day_of_month(date: &CalendarDate) -> (r: u32)
    requires
        date.wf(),
    ensures
        r as int == date.last_day(),
{
    if date.month == 2 {
        if date.year % 4 == 0 && (date.year % 100 != 0 || date.year % 400 == 0) {
            29
        } else {
            28
        }
    } else if date.month == 4 || date.month == 6 || date.month == 9 || date.month == 11 {
        30
    } else {
        31
    }
}

/// Day of the week of a valid date, counted from Monday.
pub fn weekday_from_monday(date: &CalendarDate) -> (r: u32)
    requires
        date.wf(),
    ensures
        r as int == date.weekday(),
        r < 7,
{
    chrono_weekday(date.year, date.month, date.day)
}

/// Whether the day named by `date` falls on the given weekday (0 is Monday).
pub open spec fn weekday_flag_spec(date: Seq<char>, weekday: int) -> Option<bool> {
    match parse_date_spec(date) {
        Some(d) => Some(d.weekday() == weekday),
        None => None,
    }
}

fn weekday_flag(date: &str, weekday: u32) -> (r: StockrsResult<bool>)
    ensures
        match weekday_flag_spec(date@, weekday as int) {
            Some(b) => r == Ok::<bool, StockrsError>(b),
            None => r is Err,
        },
{
    let d = parse_date_flexible(date)?;
    Ok(weekday_from_monday(&d) == weekday)
}

/// Monday flag.
pub fn day20_is_monday(date: &str) -> (r: StockrsResult<bool>)
    ensures
        match weekday_flag_spec(date@, 0) {
            Some(b) => r == Ok::<bool, StockrsError>(b),
            None => r is Err,
        },
{
    weekday_flag(date, 0)
}

/// Tuesday flag.
pub fn day20_is_tuesday(date: &str) -> (r: StockrsResult<bool>)
    ensures
        match weekday_flag_spec(date@, 1) {
            Some(b) => r == Ok::<bool, StockrsError>(b),
            None => r is Err,
        },
{
    weekday_flag(date, 1)
}

/// Wednesday flag.
pub fn day20_is_wednesday(date: &str) -> (r: StockrsResult<bool>)
    ensures
        match weekday_flag_spec(date@, 2) {
            Some(b) => r == Ok::<bool, StockrsError>(b),
            None => r is Err,
        },
{
    weekday_flag(date, 2)
}

/// Thursday flag.
pub fn day20_is_thursday(date: &str) -> (r: StockrsResult<bool>)
    ensures
        match weekday_flag_spec(date@, 3) {
            Some(b) => r == Ok::<bool, StockrsError>(b),
            None => r is Err,
        },
{
    weekday_flag(date, 3)
}

/// Friday flag.
pub fn day20_is_friday(date: &str) -> (r: StockrsResult<bool>)
    ensures
        match weekday_flag_spec(date@, 4) {
            Some(b) => r == Ok::<bool, StockrsError>(b),
            None => r is Err,
        },
{
    weekday_flag(date, 4)
}

/// The answer of a feature on the day that `date` names.
pub open spec fn feature_spec<T>(date: Seq<char>, f: spec_fn(CalendarDate) -> T) -> Option<T> {
    match parse_date_spec(date) {
        Some(d) => Some(f(d)),
        None => None,
    }
}

/// Whether the day is the first of its month.
pub open spec fn is_month_start_spec(d: CalendarDate) -> bool {
    d.day == 1
}

/// Whether the day is the last of its month.
pub open spec fn is_month_end_spec(d: CalendarDate) -> bool {
    d.day == d.last_day()
}

/// Whether the day is the last of March, June, September or December.
pub open spec fn is_quarter_end_spec(d: CalendarDate) -> bool {
    (d.month == 3 || d.month == 6 || d.month == 9 || d.month == 12) && d.day == d.last_day()
}

/// Whether the day is the last of June or December.
pub open spec fn is_half_year_end_spec(d: CalendarDate) -> bool {
    (d.month == 6 || d.month == 12) && d.day == d.last_day()
}

/// Days left in the month, the day itself included, over the month's length.
pub open spec fn days_to_month_end_spec(d: CalendarDate) -> Ratio {
    Ratio { numer: (d.last_day() - d.day + 1) as u32, denom: d.last_day() as u32 }
}

/// First-of-month flag.
pub fn day20_is_month_start(date: &str) -> (r: StockrsResult<bool>)
    ensures
        match feature_spec(date@, |d: CalendarDate| is_month_start_spec(d)) {
            Some(b) => r == Ok::<bool, StockrsError>(b),
            None => r is Err,
        },
        parse_date_spec(date@) matches Some(d) ==> r == Ok::<bool, StockrsError>(
            d.day == 1,
        ),
{
    let d = parse_date_flexible(date)?;
    Ok(d.day == 1)
}

/// Last-of-month flag.
pub fn day20_is_month_end(date: &str) -> (r: StockrsResult<bool>)
    ensures
        match feature_spec(date@, |d: CalendarDate| is_month_end_spec(d)) {
            Some(b) => r == Ok::<bool, StockrsError>(b),
            None => r is Err,
        },
        parse_date_spec(date@) matches Some(d) ==> r == Ok::<bool, StockrsError>(
            d.day == d.last_day(),
        ),
{
    let d = parse_date_flexible(date)?;
    let last_day = last_day_of_month(&d);
    Ok(d.day == last_day)
}

/// Share of the month still ahead, the day itself included.
pub fn day20_days_to_month_end(date: &str) -> (r: StockrsResult<Ratio>)
    ensures
        match feature_spec(date@, |d: CalendarDate| days_to_month_end_spec(d)) {
            Some(q) => r == Ok::<Ratio, StockrsError>(q),
            None => r is Err,
        },
        parse_date_spec(date@) matches Some(d) ==> r == Ok::<Ratio, StockrsError>(
            Ratio { numer: (d.last_day() - d.day + 1) as u32, denom: d.last_day() as u32 },
        ),
{
    let d = parse_date_flexible(date)?;
    let last_day = last_day_of_month(&d);
    let remaining_days = last_day - d.day + 1;
    Ok(Ratio { numer: remaining_days, denom: last_day })
}

/// Last-day-of-quarter flag.
pub fn day20_is_quarter_end(date: &str) -> (r: StockrsResult<bool>)
    ensures
        match feature_spec(date@, |d: CalendarDate| is_quarter_end_spec(d)) {
            Some(b) => r == Ok::<bool, StockrsError>(b),
            None => r is Err,
        },
        parse_date_spec(date@) matches Some(d) ==> r == Ok::<bool, StockrsError>(
            (d.month == 3 || d.month == 6 || d.month == 9 || d.month == 12) && d.day == d.last_day(),
        ),
{
    let d = parse_date_flexible(date)?;
    let is_quarter_month = d.month == 3 || d.month == 6 || d.month == 9 || d.month == 12;
    if !is_quarter_month {
        return Ok(false);
    }
    let last_day = last_day_of_month(&d);
    Ok(d.day == last_day)
}

/// Last-day-of-half-year flag.
pub fn day20_is_half_year_end(date: &str) -> (r: StockrsResult<bool>)
    ensures
        match feature_spec(date@, |d: CalendarDate| is_half_year_end_spec(d)) {
            Some(b) => r == Ok::<bool, StockrsError>(b),
            None => r is Err,
        },
        parse_date_spec(date@) matches Some(d) ==> r == Ok::<bool, StockrsError>(
            (d.month == 6 || d.month == 12) && d.day == d.last_day(),
        ),
{
    let d = parse_date_flexible(date)?;
    let is_half_year_month = d.month == 6 || d.month == 12;
    if !is_half_year_month {
        return Ok(false);
    }
    let last_day = last_day_of_month(&d);
    Ok(d.day == last_day)
}

/// December 15th to 31st.
pub open spec fn santa_rally_spec(d: CalendarDate) -> bool {
    d.month == 12 && d.day >= 15
}

/// August 10th to 25th.
pub open spec fn summer_holiday_spec(d: CalendarDate) -> bool {
    d.month == 8 && 10 <= d.day <= 25
}

/// The last three or the first three days of a month.
pub open spec fn turn_of_month_spec(d: CalendarDate) -> bool {
    d.day > d.last_day() - 3 || d.day <= 3
}

/// The last three or the first three days of March, June, September or
/// December.
pub open spec fn turn_of_quarter_spec(d: CalendarDate) -> bool {
    (d.month == 3 || d.month == 6 || d.month == 9 || d.month == 12) && (d.day > d.last_day() - 3
        || d.day <= 3)
}

/// A Friday from the 15th to the 21st of March, June, September or December.
pub open spec fn triple_witching_spec(d: CalendarDate) -> bool {
    (d.month == 3 || d.month == 6 || d.month == 9 || d.month == 12) && d.weekday() == 4 && 15
        <= d.day <= 21
}

/// The last five days of March, June, September or December.
pub open spec fn window_dressing_spec(d: CalendarDate) -> bool {
    (d.month == 3 || d.month == 6 || d.month == 9 || d.month == 12) && d.day > d.last_day() - 5
}

/// December 20th to 31st.
pub open spec fn fiscal_year_end_spec(d: CalendarDate) -> bool {
    d.month == 12 && d.day >= 20
}

/// The ISO week number over 52.
pub open spec fn week_of_year_spec(d: CalendarDate) -> Ratio {
    Ratio {
        numer: iso_week_spec(d.year as int, d.month as int, d.day as int) as u32,
        denom: 52,
    }
}

/// Seasonal average return of each month, in hundredths.
pub open spec fn monthly_return_hundredths(month: int) -> int {
    if month == 1 {
        2
    } else if month == 2 {
        1
    } else if month == 3 {
        3
    } else if month == 4 {
        2
    } else if month == 5 {
        -1
    } else if month == 6 {
        1
    } else if month == 7 {
        2
    } else if month == 8 {
        1
    } else if month == 9 {
        -1
    } else if month == 10 {
        3
    } else if month == 11 {
        2
    } else {
        4
    }
}

/// The month's seasonal return `r`, mapped from [-1, 1] to [0, 1] as
/// `(r + 1) / 2`.
pub open spec fn monthly_return_seasonality_spec(d: CalendarDate) -> Ratio {
    Ratio { numer: (100 + monthly_return_hundredths(d.month as int)) as u32, denom: 200 }
}

/// Seasonal average return of each weekday (0 is Monday), in hundredths;
/// weekends have none.
pub open spec fn weekday_return_hundredths(weekday: int) -> Option<int> {
    if weekday == 0 {
        Some(1)
    } else if weekday == 1 {
        Some(2)
    } else if weekday == 2 {
        Some(1)
    } else if weekday == 3 {
        Some(2)
    } else if weekday == 4 {
        Some(3)
    } else {
        None
    }
}

/// The weekday's seasonal return mapped to [0, 1]; one half on weekends.
pub open spec fn dayofweek_return_seasonality_spec(d: CalendarDate) -> Ratio {
    match weekday_return_hundredths(d.weekday()) {
        Some(r) => Ratio { numer: (100 + r) as u32, denom: 200 },
        None => Ratio { numer: 100, denom: 200 },
    }
}

/// Santa-rally window flag.
pub fn day21_santa_rally_flag(date: &str) -> (r: StockrsResult<bool>)
    ensures
        match feature_spec(date@, |d: CalendarDate| santa_rally_spec(d)) {
            Some(b) => r == Ok::<bool, StockrsError>(b),
            None => r is Err,
        },
        parse_date_spec(date@) matches Some(d) ==> r == Ok::<bool, StockrsError>(
            d.month == 12 && 15 <= d.day,
        ),
{
    let d = parse_date_flexible(date)?;
    Ok(d.month == 12 && d.day >= 15)
}

/// Seasonal return of the date's month, scaled to [0, 1].
pub fn day21_monthly_return_seasonality(date: &str) -> (r: StockrsResult<Ratio>)
    ensures
        match feature_spec(date@, |d: CalendarDate| monthly_return_seasonality_spec(d)) {
            Some(q) => r == Ok::<Ratio, StockrsError>(q),
            None => r is Err,
        },
        parse_date_spec(date@) matches Some(d) ==> r == Ok::<Ratio, StockrsError>(
            Ratio {
                numer: (100 + seq![2int, 1, 3, 2, -1, 1, 2, 1, -1, 3, 2, 4][d.month - 1]) as u32,
                denom: 200,
            },
        ),
{
    let d = parse_date_flexible(date)?;
    let seasonal_returns: [i32; 12] = [2, 1, 3, 2, -1, 1, 2, 1, -1, 3, 2, 4];
    let raw_return = seasonal_returns[(d.month - 1) as usize];
    Ok(Ratio { numer: (100 + raw_return) as u32, denom: 200 })
}

/// Seasonal return of the date's weekday, scaled to [0, 1].
pub fn day21_dayofweek_return_seasonality(date: &str) -> (r: StockrsResult<Ratio>)
    ensures
        match feature_spec(date@, |d: CalendarDate| dayofweek_return_seasonality_spec(d)) {
            Some(q) => r == Ok::<Ratio, StockrsError>(q),
            None => r is Err,
        },
        parse_date_spec(date@) matches Some(d) ==> r == Ok::<Ratio, StockrsError>(
            Ratio {
                numer: if d.weekday() < 5 {
                    (100 + seq![1int, 2, 1, 2, 3][d.weekday()]) as u32
                } else {
                    100
                },
                denom: 200,
            },
        ),
{
    let d = parse_date_flexible(date)?;
    let weekday_returns: [u32; 5] = [1, 2, 1, 2, 3];
    let weekday_index = weekday_from_monday(&d);
    if weekday_index >= 5 {
        return Ok(Ratio { numer: 100, denom: 200 });
    }
    let raw_return = weekday_returns[weekday_index as usize];
    Ok(Ratio { numer: 100 + raw_return, denom: 200 })
}

/// Summer-holiday window flag.
pub fn day21_summer_holiday_flag(date: &str) -> (r: StockrsResult<bool>)
    ensures
        match feature_spec(date@, |d: CalendarDate| summer_holiday_spec(d)) {
            Some(b) => r == Ok::<bool, StockrsError>(b),
            None => r is Err,
        },
        parse_date_spec(date@) matches Some(d) ==> r == Ok::<bool, StockrsError>(
            d.month == 8 && 10 <= d.day <= 25,
        ),
{
    let d = parse_date_flexible(date)?;
    Ok(d.month == 8 && d.day >= 10 && d.day <= 25)
}

/// Turn-of-month window flag.
pub fn day21_turn_of_month_effect(date: &str) -> (r: StockrsResult<bool>)
    ensures
        match feature_spec(date@, |d: CalendarDate| turn_of_month_spec(d)) {
            Some(b) => r == Ok::<bool, StockrsError>(b),
            None => r is Err,
        },
        parse_date_spec(date@) matches Some(d) ==> r == Ok::<bool, StockrsError>(
            d.day <= 3 || d.last_day() - 3 < d.day,
        ),
{
    let d = parse_date_flexible(date)?;
    let last_day = last_day_of_month(&d);
    let is_month_end_3 = d.day > last_day - 3;
    let is_month_start_3 = d.day <= 3;
    Ok(is_month_end_3 || is_month_start_3)
}

/// Turn-of-quarter window flag.
pub fn day21_turn_of_quarter_effect(date: &str) -> (r: StockrsResult<bool>)
    ensures
        match feature_spec(date@, |d: CalendarDate| turn_of_quarter_spec(d)) {
            Some(b) => r == Ok::<bool, StockrsError>(b),
            None => r is Err,
        },
        parse_date_spec(date@) matches Some(d) ==> r == Ok::<bool, StockrsError>(
            (d.month == 3 || d.month == 6 || d.month == 9 || d.month == 12) && (d.day <= 3 || d.last_day() - 3 < d.day),
        ),
{
    let d = parse_date_flexible(date)?;
    let is_quarter_month = d.month == 3 || d.month == 6 || d.month == 9 || d.month == 12;
    if !is_quarter_month {
        return Ok(false);
    }
    let last_day = last_day_of_month(&d);
    let is_quarter_end_3 = d.day > last_day - 3;
    let is_quarter_start_3 = d.day <= 3;
    Ok(is_quarter_end_3 || is_quarter_start_3)
}

/// ISO week number of the date over 52.
pub fn day21_week_of_year_norm(date: &str) -> (r: StockrsResult<Ratio>)
    ensures
        match feature_spec(date@, |d: CalendarDate| week_of_year_spec(d)) {
            Some(q) => r == Ok::<Ratio, StockrsError>(q),
            None => r is Err,
        },
{
    let d = parse_date_flexible(date)?;
    let week_num = chrono_iso_week(d.year, d.month, d.day);
    Ok(Ratio { numer: week_num, denom: 52 })
}

/// Quarterly futures-and-options expiry flag.
pub fn day21_triple_witching_flag(date: &str) -> (r: StockrsResult<bool>)
    ensures
        match feature_spec(date@, |d: CalendarDate| triple_witching_spec(d)) {
            Some(b) => r == Ok::<bool, StockrsError>(b),
            None => r is Err,
        },
        parse_date_spec(date@) matches Some(d) ==> r == Ok::<bool, StockrsError>(
            (d.month == 3 || d.month == 6 || d.month == 9 || d.month == 12) && d.weekday() == 4
                && 15 <= d.day <= 21,
        ),
{
    let d = parse_date_flexible(date)?;
    let is_triple_witching_month = d.month == 3 || d.month == 6 || d.month == 9 || d.month == 12;
    if !is_triple_witching_month || weekday_from_monday(&d) != 4 {
        return Ok(false);
    }
    let day = d.day;
    Ok(day >= 15 && day <= 21)
}

/// Quarter-end window-dressing flag.
pub fn day21_window_dressing_flag(date: &str) -> (r: StockrsResult<bool>)
    ensures
        match feature_spec(date@, |d: CalendarDate| window_dressing_spec(d)) {
            Some(b) => r == Ok::<bool, StockrsError>(b),
            None => r is Err,
        },
        parse_date_spec(date@) matches Some(d) ==> r == Ok::<bool, StockrsError>(
            (d.month == 3 || d.month == 6 || d.month == 9 || d.month == 12) && d.last_day() - 5 < d.day,
        ),
{
    let d = parse_date_flexible(date)?;
    let is_quarter_end_month = d.month == 3 || d.month == 6 || d.month == 9 || d.month == 12;
    if !is_quarter_end_month {
        return Ok(false);
    }
    let last_day = last_day_of_month(&d);
    Ok(d.day > last_day - 5)
}

/// Fiscal-year-end flag.
pub fn day21_fiscal_year_end_flag(date: &str) -> (r: StockrsResult<bool>)
    ensures
        match feature_spec(date@, |d: CalendarDate| fiscal_year_end_spec(d)) {
            Some(b) => r == Ok::<bool, StockrsError>(b),
            None => r is Err,
        },
        parse_date_spec(date@) matches Some(d) ==> r == Ok::<bool, StockrsError>(
            d.month == 12 && 20 <= d.day,
        ),
{
    let d = parse_date_flexible(date)?;
    Ok(d.month == 12 && d.day >= 20)
}

} // verus!

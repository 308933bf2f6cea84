//! Times of day as the strategies configure them (`HH:MM:SS`), the shift
//! applied on special trading days, and the local clock.
use vstd::prelude::*;
use chrono::{Datelike, Timelike};
use crate::error::{StockrsError, StockrsResult};
use crate::text::{chars_of, parse_u32, parse_u32_spec, split_fields, split_spec, views};
use crate::types::Timestamp;

verus! {

/// Minutes in a day.
pub const MINUTES_PER_DAY: i64 = 1440;

/// The hour and minute of a `HH:MM:SS` string: it splits on `:` into exactly
/// three pieces and the first two read as `u32`; the seconds are not read.
pub open spec fn parse_hm_spec(s: Seq<char>) -> Option<(u32, u32)> {
    let parts = split_spec(s, ':');
    if parts.len() != 3 {
        None
    } else {
        match (parse_u32_spec(parts[0]), parse_u32_spec(parts[1])) {
            (Some(h), Some(m)) => Some((h, m)),
            _ => None,
        }
    }
}

/// The hour and minute of `h:m` moved by `offset` minutes, if the result
/// stays within the day.
pub open spec fn shift_hm_spec(h: u32, m: u32, offset: int) -> Option<(u32, u32)> {
    let total = h * 60 + m + offset;
    if total < 0 || total >= 1440 {
        None
    } else {
        Some(((total / 60) as u32, (total % 60) as u32))
    }
}

/// The time of day that a configured `HH:MM:SS` string names on a day,
/// moved by the day's offset where the day is special.
pub open spec fn scheduled_hm_spec(s: Seq<char>, special_offset: Option<i32>) -> Option<(u32, u32)> {
    match parse_hm_spec(s) {
        Some((h, m)) => match special_offset {
            Some(offset) => shift_hm_spec(h, m, offset as int),
            None => Some((h, m)),
        },
        None => None,
    }
}

/// Reads the hour and minute of a `HH:MM:SS` string.
pub fn parse_time_string(time_str: &str) -> (r: StockrsResult<(u32, u32)>)
    ensures
        match parse_hm_spec(time_str@) {
            Some(hm) => r == Ok::<(u32, u32), StockrsError>(hm),
            None => r is Err,
        },
{
    let cs = chars_of(time_str);
    let parts = split_fields(cs.as_slice(), ':');
    proof {
        assert(views(parts@).len() == parts@.len());
    }
    if parts.len() != 3 {
        return Err(
            StockrsError::Parsing {
                data_type: String::from_str("time of day"),
                reason: time_str.to_owned(),
            },
        );
    }
    proof {
        assert(views(parts@)[0] == parts@[0]@);
        assert(views(parts@)[1] == parts@[1]@);
    }
    let hour = match parse_u32(parts[0].as_slice()) {
        Some(h) => h,
        None => {
            return Err(
                StockrsError::Parsing {
                    data_type: String::from_str("hour"),
                    reason: time_str.to_owned(),
                },
            );
        },
    };
    let minute = match parse_u32(parts[1].as_slice()) {
        Some(m) => m,
        None => {
            return Err(
                StockrsError::Parsing {
                    data_type: String::from_str("minute"),
                    reason: time_str.to_owned(),
                },
            );
        },
    };
    Ok((hour, minute))
}

/// Moves `hour:minute` by `offset` minutes; an error when the result leaves
/// the day.
pub fn shift_time_of_day(hour: u32, minute: u32, offset: i32) -> (r: StockrsResult<(u32, u32)>)
    ensures
        match shift_hm_spec(hour, minute, offset as int) {
            Some(hm) => r == Ok::<(u32, u32), StockrsError>(hm),
            None => r is Err,
        },
{
    let total_minutes: i64 = hour as i64 * 60 + minute as i64 + offset as i64;
    if total_minutes < 0 || total_minutes >= MINUTES_PER_DAY {
        return Err(
            StockrsError::Validation {
                message: String::from_str("scheduled time leaves the day after the offset"),
            },
        );
    }
    Ok(((total_minutes / 60) as u32, (total_minutes % 60) as u32))
}

/// The time of day a configured `HH:MM:SS` string names on a day whose
/// special offset, if any, is `special_offset`.
pub fn scheduled_time(time_str: &str, special_offset: Option<i32>) -> (r: StockrsResult<(u32, u32)>)
    ensures
        match scheduled_hm_spec(time_str@, special_offset) {
            Some(hm) => r == Ok::<(u32, u32), StockrsError>(hm),
            None => r is Err,
        },
{
    let (hour, minute) = parse_time_string(time_str)?;
    match special_offset {
        Some(offset) => shift_time_of_day(hour, minute, offset),
        None => Ok((hour, minute)),
    }
}

/// Reads the local clock (`chrono::Local::now`, then `naive_local`).
/// Trusted: the fields form a real date and time of day; which instant it
/// is depends on the machine's clock and is not stated.
#[verifier::external_body]
pub(crate) fn local_now() -> (t: Timestamp)
    ensures
        t.wf(),
{
    let now = chrono::Local::now().naive_local();
    Timestamp {
        year: now.year(),
        month: now.month(),
        day: now.day(),
        hour: now.hour(),
        minute: now.minute(),
        second: now.second(),
    }
}

/// The digit character of a value below ten.
pub open spec fn digit_char(d: int) -> char {
    (('0' as int) + d) as char
}

/// `value` written in decimal with exactly `width` digits, zeros in front.
pub open spec fn padded_digits(value: int, width: nat) -> Seq<char>
    decreases width,
{
    if width == 0 {
        Seq::<char>::empty()
    } else {
        padded_digits(value / 10, (width - 1) as nat).push(digit_char(value % 10))
    }
}

/// `value` written in decimal with at least `width` digits, zeros in front.
pub open spec fn padded_at_least(value: nat, width: nat) -> Seq<char>
    decreases value + width,
{
    if width == 0 && value == 0 {
        Seq::<char>::empty()
    } else {
        padded_at_least(
            value / 10,
            if width > 0 {
                (width - 1) as nat
            } else {
                0
            },
        ).push(digit_char((value % 10) as int))
    }
}

/// A year as chrono's `%Y` writes it: four digits from 0 to 9999, otherwise
/// a sign and at least four digits.
pub open spec fn year_text(year: int) -> Seq<char> {
    if 0 <= year <= 9999 {
        padded_digits(year, 4)
    } else if year > 9999 {
        seq!['+'] + padded_at_least(year as nat, 4)
    } else {
        seq!['-'] + padded_at_least((-year) as nat, 4)
    }
}

/// The day of a timestamp written `YYYYMMDD` (the year as `%Y` writes it).
pub open spec fn ymd_text(t: Timestamp) -> Seq<char> {
    year_text(t.year as int) + padded_digits(t.month as int, 2) + padded_digits(t.day as int, 2)
}

/// The minute of a timestamp written `YYYYMMDDHHMM`.
pub open spec fn ymdhm_text(t: Timestamp) -> Seq<char> {
    ymd_text(t) + padded_digits(t.hour as int, 2) + padded_digits(t.minute as int, 2)
}

fn digit_str(d: u32) -> (r: &'static str)
    requires
        d < 10,
    ensures
        r@ == seq![digit_char(d as int)],
{
    proof {
        reveal_strlit("0");
        reveal_strlit("1");
        reveal_strlit("2");
        reveal_strlit("3");
        reveal_strlit("4");
        reveal_strlit("5");
        reveal_strlit("6");
        reveal_strlit("7");
        reveal_strlit("8");
        reveal_strlit("9");
    }
    let r = match d {
        0 => "0",
        1 => "1",
        2 => "2",
        3 => "3",
        4 => "4",
        5 => "5",
        6 => "6",
        7 => "7",
        8 => "8",
        _ => "9",
    };
    assert(r@ =~= seq![digit_char(d as int)]);
    r
}

fn push_padded(out: &mut String, value: u32, width: u32)
    requires
        width <= 4,
    ensures
        final(out)@ == old(out)@ + padded_digits(value as int, width as nat),
    decreases width,
{
    if width == 0 {
        assert(old(out)@ + padded_digits(value as int, 0) =~= old(out)@);
        return;
    }
    push_padded(out, value / 10, width - 1);
    out.append(digit_str(value % 10));
    assert(padded_digits(value as int, width as nat) == padded_digits(
        (value / 10) as int,
        (width - 1) as nat,
    ).push(digit_char((value % 10) as int)));
    assert(final(out)@ =~= old(out)@ + padded_digits(value as int, width as nat));
}

fn push_at_least(out: &mut String, value: u32, width: u32)
    requires
        width <= 4,
    ensures
        final(out)@ == old(out)@ + padded_at_least(value as nat, width as nat),
    decreases value as int + width as int,
{
    if width == 0 && value == 0 {
        assert(old(out)@ + padded_at_least(0, 0) =~= old(out)@);
        return;
    }
    let next_width: u32 = if width > 0 {
        width - 1
    } else {
        0
    };
    push_at_least(out, value / 10, next_width);
    out.append(digit_str(value % 10));
    assert(padded_at_least(value as nat, width as nat) == padded_at_least(
        (value / 10) as nat,
        next_width as nat,
    ).push(digit_char((value % 10) as int)));
    assert(final(out)@ =~= old(out)@ + padded_at_least(value as nat, width as nat));
}

fn push_year(out: &mut String, year: i32)
    ensures
        final(out)@ == old(out)@ + year_text(year as int),
{
    if 0 <= year && year <= 9999 {
        push_padded(out, year as u32, 4);
    } else if year > 9999 {
        out.append("+");
        proof {
            reveal_strlit("+");
        }
        push_at_least(out, year as u32, 4);
        assert(out@ =~= old(out)@ + year_text(year as int));
    } else {
        out.append("-");
        proof {
            reveal_strlit("-");
        }
        let magnitude: u32 = (-(year as i64)) as u32;
        push_at_least(out, magnitude, 4);
        assert(out@ =~= old(out)@ + year_text(year as int));
    }
}

/// The day of `t` written `YYYYMMDD`, the year as chrono's `%Y` writes it.
pub fn format_ymd(t: &Timestamp) -> (r: String)
    ensures
        r@ == ymd_text(*t),
{
    let mut out = String::new();
    push_year(&mut out, t.year);
    push_padded(&mut out, t.month, 2);
    push_padded(&mut out, t.day, 2);
    assert(out@ =~= ymd_text(*t));
    out
}

/// The minute of `t` written `YYYYMMDDHHMM`, the year as chrono's `%Y`
/// writes it.
pub fn format_ymdhm(t: &Timestamp) -> (r: String)
    ensures
        r@ == ymdhm_text(*t),
{
    let mut out = format_ymd(t);
    push_padded(&mut out, t.hour, 2);
    push_padded(&mut out, t.minute, 2);
    assert(out@ =~= ymdhm_text(*t));
    out
}

/// The time of day of `t` written `HHMM`, as the model records store it.
pub fn format_hhmm(t: &Timestamp) -> (r: String)
    ensures
        r@ == padded_digits(t.hour as int, 2) + padded_digits(t.minute as int, 2),
{
    let mut out = String::new();
    push_padded(&mut out, t.hour, 2);
    push_padded(&mut out, t.minute, 2);
    assert(out@ =~= padded_digits(t.hour as int, 2) + padded_digits(t.minute as int, 2));
    out
}

/// Where a tick falls relative to the day's trading session.
#[derive(Clone, Copy, Debug, PartialEq, Eq, Structural)]
pub enum SessionPhase {
    /// Before the session opens.
    BeforeOpen,
    /// From the opening minute to the closing minute, both included.
    Open,
    /// After the closing minute.
    AfterClose,
}

/// Where `h:m` falls relative to a session from `open` to `close`.
pub open spec fn session_phase_spec(h: u32, m: u32, open: (u32, u32), close: (u32, u32)) -> SessionPhase {
    if h < open.0 || (h == open.0 && m < open.1) {
        SessionPhase::BeforeOpen
    } else if h > close.0 || (h == close.0 && m > close.1) {
        SessionPhase::AfterClose
    } else {
        SessionPhase::Open
    }
}

/// Where the tick `now` falls relative to a session from `open` to `close`
/// (hour and minute each).
pub fn session_phase(now: &Timestamp, open: (u32, u32), close: (u32, u32)) -> (r: SessionPhase)
    ensures
        r == session_phase_spec(now.hour, now.minute, open, close),
{
    if now.hour < open.0 || (now.hour == open.0 && now.minute < open.1) {
        SessionPhase::BeforeOpen
    } else if now.hour > close.0 || (now.hour == close.0 && now.minute > close.1) {
        SessionPhase::AfterClose
    } else {
        SessionPhase::Open
    }
}

} // verus!

//! Properties that hold across the library's operations, each proved over
//! the specifications that the operations' contracts use.
use vstd::prelude::*;
use crate::broker::covers_order;
use crate::clock::{digit_char, padded_digits, shift_hm_spec, ymd_text};
use crate::calendar::{
    days_to_month_end_spec, fiscal_year_end_spec, is_half_year_end_spec, is_month_end_spec,
    is_month_start_spec, is_quarter_end_spec, parse_date_spec, santa_rally_spec,
    triple_witching_spec, turn_of_month_spec, turn_of_quarter_spec, window_dressing_spec,
    CalendarDate,
};
use crate::model::joonwoo::{joonwoo_exit_spec, JoonwooView, TradingState};
use crate::model::minseop::{minseop_entry_quantity, minseop_exit_spec, MinseopView};
use crate::text::{all_digits, decimal_value, digit_value, is_digit, pow10};
use crate::types::{affordable_quantity, shares_for, Order, OrderSide, Timestamp};
use crate::universe::table_name_spec;

verus! {

/// For any day: the last day of a half year is the last day of a quarter,
/// which is the last day of a month; a month ends exactly where one day of
/// it is left; the share of the month left is at most one, and is one
/// exactly on its first day; the end of a quarter falls in its
/// window-dressing days and at its turn; the turn of a quarter is a turn of
/// a month; the fiscal year-end window lies within the Santa-rally window.
pub proof fn lemma_calendar_flags_nest(d: CalendarDate)
    requires
        d.wf(),
    ensures
        is_half_year_end_spec(d) ==> is_quarter_end_spec(d),
        is_quarter_end_spec(d) ==> is_month_end_spec(d),
        is_month_end_spec(d) <==> days_to_month_end_spec(d).numer == 1,
        is_quarter_end_spec(d) ==> window_dressing_spec(d) && turn_of_quarter_spec(d),
        turn_of_quarter_spec(d) ==> turn_of_month_spec(d),
        fiscal_year_end_spec(d) ==> santa_rally_spec(d),
        days_to_month_end_spec(d).numer <= days_to_month_end_spec(d).denom,
        is_month_start_spec(d) <==> days_to_month_end_spec(d).numer == days_to_month_end_spec(
            d,
        ).denom,
{
}

/// The two date layouts name the same day: `YYYY-MM-DD` parses as
/// `YYYYMMDD` does when the digits agree.
pub proof fn lemma_date_layouts_agree(y: Seq<char>, m: Seq<char>, d: Seq<char>)
    requires
        y.len() == 4,
        m.len() == 2,
        d.len() == 2,
        all_digits(y),
        all_digits(m),
        all_digits(d),
    ensures
        parse_date_spec(y + seq!['-'] + m + seq!['-'] + d) == parse_date_spec(y + m + d),
{
    let dashed = y + seq!['-'] + m + seq!['-'] + d;
    let plain = y + m + d;
    assert(dashed.subrange(0, 4) =~= y);
    assert(dashed.subrange(5, 7) =~= m);
    assert(dashed.subrange(8, 10) =~= d);
    assert(plain.subrange(0, 4) =~= y);
    assert(plain.subrange(4, 6) =~= m);
    assert(plain.subrange(6, 8) =~= d);
    assert(dashed[4] == '-');
    assert(dashed[7] == '-');
    assert(all_digits(plain)) by {
        assert forall|i: int| 0 <= i < plain.len() implies is_digit(#[trigger] plain[i]) by {
            if i < 4 {
                assert(plain[i] == y[i]);
            } else if i < 6 {
                assert(plain[i] == m[i - 4]);
            } else {
                assert(plain[i] == d[i - 6]);
            }
        }
    }
}

/// Naming a table twice names the same table.
pub proof fn lemma_table_name_idempotent(code: Seq<char>)
    ensures
        table_name_spec(table_name_spec(code)) == table_name_spec(code),
{
    if !(code.len() > 0 && code[0] == 'A') {
        assert((seq!['A'] + code)[0] == 'A');
    }
}

/// A table name starts with `A`, ends with the code's characters, and is at
/// most one character longer than the code.
pub proof fn lemma_table_name_shape(code: Seq<char>)
    ensures
        table_name_spec(code).len() > 0,
        table_name_spec(code)[0] == 'A',
        code.len() <= table_name_spec(code).len() <= code.len() + 1,
        table_name_spec(code).subrange(
            table_name_spec(code).len() - code.len(),
            table_name_spec(code).len() as int,
        ) == code,
{
    if !(code.len() > 0 && code[0] == 'A') {
        assert((seq!['A'] + code)[0] == 'A');
        assert((seq!['A'] + code).subrange(1, code.len() + 1 as int) =~= code);
    } else {
        assert(code.subrange(0, code.len() as int) =~= code);
    }
}

/// The exit rules never sell more than is held: whatever they sell plus
/// what is left is what was held; they keep the position's bookkeeping; a
/// stop loss or a trailing stop leaves nothing, a take profit sells the
/// smaller half.
pub proof fn lemma_joonwoo_exit_conserves_shares(s: JoonwooView, price: u64)
    requires
        s.wf(),
        s.current_stock is Some,
    ensures
        ({
            let (next, order) = joonwoo_exit_spec(s, price);
            &&& next.wf()
            &&& next.current_stock == s.current_stock
            &&& next.position_size == s.position_size
            &&& match order {
                Some(o) => {
                    &&& o.side == OrderSide::Sell
                    &&& o.quantity + next.remaining_size == s.remaining_size
                    &&& next.state == TradingState::Closed ==> next.remaining_size == 0
                    &&& next.state == TradingState::PartialSold ==> o.quantity == s.remaining_size
                        / 2
                },
                None => next.remaining_size == s.remaining_size,
            }
        }),
{
}

/// Spending more never buys fewer shares: the affordable quantity grows with
/// the assets.
pub proof fn lemma_affordable_quantity_monotone(asset1: u64, asset2: u64, ratio: i64, price: u64)
    requires
        asset1 <= asset2,
    ensures
        affordable_quantity(asset1, ratio, price) <= affordable_quantity(asset2, ratio, price),
{
    let a1 = asset1 * ratio;
    let a2 = asset2 * ratio;
    if ratio > 0 {
        assert(a1 <= a2) by (nonlinear_arith)
            requires
                a1 == asset1 * ratio,
                a2 == asset2 * ratio,
                asset1 <= asset2,
                ratio > 0,
        ;
        if price > 0 && a1 > 0 {
            let den = 10000 * price;
            assert(a1 / den <= a2 / den) by (nonlinear_arith)
                requires
                    a1 <= a2,
                    den > 0,
                    a1 > 0,
            ;
        }
    } else {
        assert(a1 <= 0) by (nonlinear_arith)
            requires
                a1 == asset1 * ratio,
                ratio <= 0,
                asset1 >= 0,
        ;
        assert(a2 <= 0) by (nonlinear_arith)
            requires
                a2 == asset2 * ratio,
                ratio <= 0,
                asset2 >= 0,
        ;
    }
}

/// The minseop entry spends its fixed amount when that is on, covered by
/// the assets and enough for a share: it then buys as many shares as the
/// amount pays for (held in a `u32`). When the amount is off, or more than
/// the assets, it buys what the configured share of the assets buys.
pub proof fn lemma_minseop_entry_fallback(s: MinseopView, price: u64, asset: u64)
    ensures
        0 < price <= s.fixed_entry_amount <= asset ==> minseop_entry_quantity(s, price, asset) as int
            == (if (s.fixed_entry_amount as int) / (price as int) > u32::MAX {
            u32::MAX as int
        } else {
            (s.fixed_entry_amount as int) / (price as int)
        }),
        s.fixed_entry_amount <= 0 ==> minseop_entry_quantity(s, price, asset)
            == affordable_quantity(asset, s.entry_asset_ratio, price),
        s.fixed_entry_amount > asset ==> minseop_entry_quantity(s, price, asset)
            == affordable_quantity(asset, s.entry_asset_ratio, price),
{
    if 0 < price <= s.fixed_entry_amount <= asset {
        let f = s.fixed_entry_amount as int;
        let p = price as int;
        assert((f * 10000) / (10000 * p) == f / p) by (nonlinear_arith)
            requires
                p > 0,
                f >= 0,
        ;
        assert(f / p >= 1) by (nonlinear_arith)
            requires
                0 < p <= f,
        ;
    }
}

/// A balance that covers an order covers it still when it is larger.
pub proof fn lemma_covers_order_monotone(asset1: u64, asset2: u64, o: Order)
    requires
        asset1 <= asset2,
        covers_order(asset1, o),
    ensures
        covers_order(asset2, o),
{
}

proof fn lemma_padded_digits(v: int, w: nat)
    requires
        0 <= v < pow10(w),
    ensures
        padded_digits(v, w).len() == w,
        all_digits(padded_digits(v, w)),
        decimal_value(padded_digits(v, w)) == v,
    decreases w,
{
    if w > 0 {
        let rest = padded_digits(v / 10, (w - 1) as nat);
        let c = digit_char(v % 10);
        assert(pow10(w) == 10 * pow10((w - 1) as nat));
        assert(v / 10 < pow10((w - 1) as nat));
        lemma_padded_digits(v / 10, (w - 1) as nat);
        assert(c as int == 48 + v % 10);
        assert(is_digit(c));
        let s = rest.push(c);
        assert(s.drop_last() =~= rest);
        assert(digit_value(c) == v % 10);
        assert(all_digits(s)) by {
            assert forall|i: int| 0 <= i < s.len() implies is_digit(#[trigger] s[i]) by {
                if i < rest.len() {
                    assert(s[i] == rest[i]);
                }
            }
        }
    }
}

/// The day a timestamp is written as (`YYYYMMDD`, the form in which the
/// strategies name a trading day) reads back as that same day.
pub proof fn lemma_day_text_reads_back(t: Timestamp)
    requires
        t.wf(),
        0 <= t.year <= 9999,
    ensures
        parse_date_spec(ymd_text(t)) == Some(CalendarDate { year: t.year, month: t.month, day: t.day }),
{
    reveal_with_fuel(pow10, 5);
    let y = padded_digits(t.year as int, 4);
    let m = padded_digits(t.month as int, 2);
    let d = padded_digits(t.day as int, 2);
    lemma_padded_digits(t.year as int, 4);
    lemma_padded_digits(t.month as int, 2);
    lemma_padded_digits(t.day as int, 2);
    let s = ymd_text(t);
    assert(s == y + m + d);
    assert(s.subrange(0, 4) =~= y);
    assert(s.subrange(4, 6) =~= m);
    assert(s.subrange(6, 8) =~= d);
    assert(all_digits(s)) by {
        assert forall|i: int| 0 <= i < s.len() implies is_digit(#[trigger] s[i]) by {
            if i < 4 {
                assert(s[i] == y[i]);
            } else if i < 6 {
                assert(s[i] == m[i - 4]);
            } else {
                assert(s[i] == d[i - 6]);
            }
        }
    }
}

/// Moving a time of day by an offset and back by the same offset gives the
/// time back, whenever the first move stays within the day.
pub proof fn lemma_shift_undone(h: u32, m: u32, offset: int)
    requires
        h < 24,
        m < 60,
        shift_hm_spec(h, m, offset) is Some,
    ensures
        ({
            let moved = shift_hm_spec(h, m, offset).unwrap();
            shift_hm_spec(moved.0, moved.1, -offset) == Some((h, m))
        }),
{
    let total = h * 60 + m + offset;
    let moved = shift_hm_spec(h, m, offset).unwrap();
    assert(moved.0 == total / 60 && moved.1 == total % 60);
    assert(moved.0 * 60 + moved.1 == total);
    let back = moved.0 * 60 + moved.1 - offset;
    assert(back == h * 60 + m);
    assert(back / 60 == h && back % 60 == m) by (nonlinear_arith)
        requires
            back == h * 60 + m,
            0 <= m < 60,
            0 <= h,
    ;
}

/// The minseop exit rules sell for a stop loss exactly when the entry price
/// is positive and the price has fallen by at least the stop-loss share of
/// it: `(price - entry) * 10000 <= -stop_loss * entry`. With a positive stop
/// loss, a price at or above the entry price never triggers it. A take
/// profit from a positive entry price comes only with a rise of at least
/// the take-profit share; with a positive take profit, never at or below
/// the entry price.
pub proof fn lemma_minseop_exit_thresholds(s: MinseopView, price: u64)
    ensures
        minseop_exit_spec(s, price) == Some("stop_loss"@) <==> (s.entry_price > 0 && (price
            - s.entry_price) * 10000 <= -s.stop_loss_pct * s.entry_price),
        s.stop_loss_pct > 0 && price >= s.entry_price ==> minseop_exit_spec(s, price) != Some(
            "stop_loss"@,
        ),
        s.entry_price > 0 && minseop_exit_spec(s, price) == Some("take_profit"@) ==> (price
            - s.entry_price) * 10000 >= s.take_profit_pct * s.entry_price,
        s.take_profit_pct > 0 && price <= s.entry_price ==> minseop_exit_spec(s, price) != Some(
            "take_profit"@,
        ),
{
    reveal_strlit("stop_loss");
    reveal_strlit("take_profit");
    assert("stop_loss"@ != "take_profit"@) by {
        assert("stop_loss"@[0] != "take_profit"@[0]);
    }
    if s.entry_price > 0 {
        let e = s.entry_price as int;
        let p = price as int;
        if s.stop_loss_pct > 0 && p >= e {
            assert((p - e) * 10000 > -s.stop_loss_pct * e) by (nonlinear_arith)
                requires
                    p >= e,
                    e > 0,
                    s.stop_loss_pct > 0,
            ;
        }
        if s.take_profit_pct > 0 && p <= e {
            assert((p - e) * 10000 < s.take_profit_pct * e) by (nonlinear_arith)
                requires
                    p <= e,
                    e > 0,
                    s.take_profit_pct > 0,
            ;
        }
    }
}

/// The name of the rule under which the joonwoo exit rules sell at `price`,
/// if they sell.
pub open spec fn joonwoo_exit_reason(s: JoonwooView, price: u64) -> Option<Seq<char>> {
    match joonwoo_exit_spec(s, price).1 {
        Some(i) => Some(i.strategy),
        None => None,
    }
}

/// The joonwoo exit rules sell everything for a stop loss exactly when the
/// entry price is positive and the price has fallen by at least the
/// stop-loss share of it: `(price - entry) * 10000 <= -stop_loss * entry`;
/// with a positive stop loss, never at or above the entry price. They sell
/// half for a take profit only while the whole position is held and, from a
/// positive entry price, only after a rise of at least the take-profit
/// share; with a positive take profit, never at or below the entry price.
/// They sell the rest for a trailing stop only after the half is sold, and
/// only once the price has fallen from the high seen since by at least the
/// trailing-stop share of that high.
pub proof fn lemma_joonwoo_exit_thresholds(s: JoonwooView, price: u64)
    ensures
        joonwoo_exit_reason(s, price) == Some("joonwoo_stop_loss"@) <==> (s.entry_price > 0 && (
        price - s.entry_price) * 10000 <= -s.stop_loss_pct * s.entry_price),
        s.stop_loss_pct > 0 && price >= s.entry_price ==> joonwoo_exit_reason(s, price) != Some(
            "joonwoo_stop_loss"@,
        ),
        joonwoo_exit_reason(s, price) == Some("joonwoo_take_profit_half"@) ==> s.state
            == TradingState::Holding,
        s.entry_price > 0 && joonwoo_exit_reason(s, price) == Some("joonwoo_take_profit_half"@) ==> (
        price - s.entry_price) * 10000 >= s.take_profit_pct * s.entry_price,
        s.take_profit_pct > 0 && price <= s.entry_price ==> joonwoo_exit_reason(s, price) != Some(
            "joonwoo_take_profit_half"@,
        ),
        joonwoo_exit_reason(s, price) == Some("joonwoo_trailing_stop"@) ==> s.state
            == TradingState::PartialSold && (s.highest_price_after_2pct matches Some(h) && (
        s.trailing_stop_pct > 0 ==> h > 0 && price < h && (price - h) * 10000
            <= -s.trailing_stop_pct * h)),
{
    reveal_strlit("joonwoo_stop_loss");
    reveal_strlit("joonwoo_take_profit_half");
    reveal_strlit("joonwoo_trailing_stop");
    assert("joonwoo_stop_loss"@ != "joonwoo_take_profit_half"@) by {
        assert("joonwoo_stop_loss"@[8] != "joonwoo_take_profit_half"@[8]);
    }
    assert("joonwoo_stop_loss"@ != "joonwoo_trailing_stop"@) by {
        assert("joonwoo_stop_loss"@[8] != "joonwoo_trailing_stop"@[8]);
    }
    assert("joonwoo_take_profit_half"@ != "joonwoo_trailing_stop"@) by {
        assert("joonwoo_take_profit_half"@[9] != "joonwoo_trailing_stop"@[9]);
    }
    if s.entry_price > 0 {
        let e = s.entry_price as int;
        let p = price as int;
        if s.stop_loss_pct > 0 && p >= e {
            assert((p - e) * 10000 > -s.stop_loss_pct * e) by (nonlinear_arith)
                requires
                    p >= e,
                    e > 0,
                    s.stop_loss_pct > 0,
            ;
        }
        if s.take_profit_pct > 0 && p <= e {
            assert((p - e) * 10000 < s.take_profit_pct * e) by (nonlinear_arith)
                requires
                    p <= e,
                    e > 0,
                    s.take_profit_pct > 0,
            ;
        }
    }
    if s.state == TradingState::PartialSold && s.trailing_stop_pct > 0 {
        if let Some(h) = s.highest_price_after_2pct {
            let t = s.trailing_stop_pct as int;
            let p = price as int;
            let top: int = if price > h { p } else { h as int };
            if top > 0 {
                assert(-t * top < 0) by (nonlinear_arith)
                    requires
                        t > 0,
                        top > 0,
                ;
            }
        }
    }
}

/// The quarterly expiry is the third Friday of March, June, September and
/// December: a day is one exactly when its month is one of those four, it is
/// a Friday, and two Fridays of the month come before it.
pub proof fn lemma_triple_witching_third_friday(d: CalendarDate)
    requires
        d.wf(),
    ensures
        triple_witching_spec(d) <==> ((d.month == 3 || d.month == 6 || d.month == 9 || d.month
            == 12) && d.weekday() == 4 && (d.day - 1) / 7 == 2),
        triple_witching_spec(d) ==> d.month % 3 == 0,
{
}

/// An amount of `amount_num / 10000` won buys the whole number of shares it
/// pays for at `price` and not one more: below the `u32` ceiling, the shares
/// times the price fit in the amount, and one more share would not.
pub proof fn lemma_shares_for_is_floor(amount_num: int, price: int)
    requires
        amount_num > 0,
        price > 0,
        shares_for(amount_num, price) < u32::MAX,
    ensures
        shares_for(amount_num, price) * price * 10000 <= amount_num,
        amount_num < (shares_for(amount_num, price) + 1) * price * 10000,
{
    let d = 10000 * price;
    let q = amount_num / d;
    assert(q == shares_for(amount_num, price));
    vstd::arithmetic::div_mod::lemma_fundamental_div_mod(amount_num, d);
    let r = amount_num % d;
    assert(0 <= r < d) by {
        vstd::arithmetic::div_mod::lemma_mod_bound(amount_num, d);
    }
    assert(q * price * 10000 == d * q) by (nonlinear_arith)
        requires
            d == 10000 * price,
    ;
    assert((q + 1) * price * 10000 == d * q + d) by (nonlinear_arith)
        requires
            d == 10000 * price,
    ;
}

/// A buy is covered when the assets pay its amount plus the 0.015% fee:
/// `asset >= price * quantity * 1.00015`. So assets that pay the bare amount
/// of a non-empty order and nothing more never cover it.
pub proof fn lemma_covers_order_with_fee(asset: u64, o: Order)
    ensures
        covers_order(asset, o) <==> asset * 100000 >= o.price * o.quantity * 100015,
        o.price * o.quantity > 0 && asset == o.price * o.quantity ==> !covers_order(asset, o),
{
    let amount = o.price * o.quantity;
    assert(amount * (100000 + 15) == o.price * o.quantity * 100015) by (nonlinear_arith)
        requires
            amount == o.price * o.quantity,
    ;
}

} // verus!

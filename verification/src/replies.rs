//! Readings of the brokerage's replies: amounts written as decimal text,
//! the cash balance, the average price of a holding, the latest close, the
//! fill record of an order and the leading codes of a ranking.
use vstd::prelude::*;
use crate::api::FillInfo;
use crate::error::{StockrsError, StockrsResult};
use crate::text::{
    all_digit_chars, all_digits, chars_of, decimal_value, lemma_split_nonempty, parse_digits_u64,
    split_fields, split_spec, str_equals, views,
};

verus! {

/// The whole won of an amount written `[+]digits[.digits]` with at least one
/// digit; the fraction is dropped.
pub open spec fn won_amount_spec(s: Seq<char>) -> Option<u64> {
    let body = if s.len() > 0 && s[0] == '+' {
        s.drop_first()
    } else {
        s
    };
    let parts = split_spec(body, '.');
    let whole = parts[0];
    let frac = if parts.len() == 2 {
        parts[1]
    } else {
        Seq::<char>::empty()
    };
    if parts.len() > 2 || (whole.len() == 0 && frac.len() == 0) || !all_digits(whole) || !all_digits(
        frac,
    ) || decimal_value(whole) > u64::MAX {
        None
    } else {
        Some(decimal_value(whole) as u64)
    }
}

fn amount_error(what: &str, text: &str) -> (e: StockrsError)
    ensures
        e matches StockrsError::Parsing { data_type, reason } && data_type@ == what@ && reason@
            == "'"@ + text@ + "'를 숫자로 변환 실패"@,
{
    let mut reason = String::from_str("'");
    reason.append(text);
    reason.append("'를 숫자로 변환 실패");
    StockrsError::Parsing { data_type: what.to_owned(), reason }
}

/// Reads an amount in won that the brokerage writes as decimal text; `what`
/// names the amount in the error.
pub fn parse_won_amount(text: &str, what: &str) -> (r: StockrsResult<u64>)
    ensures
        match won_amount_spec(text@) {
            Some(v) => r == Ok::<u64, StockrsError>(v),
            None => r matches Err(StockrsError::Parsing { .. }),
        },
{
    let cs = chars_of(text);
    let n = cs.len();
    let start: usize = if n > 0 && cs[0] == '+' {
        1
    } else {
        0
    };
    let ghost body_spec = if text@.len() > 0 && text@[0] == '+' {
        text@.drop_first()
    } else {
        text@
    };
    let mut body: Vec<char> = Vec::new();
    let mut i: usize = start;
    while i < n
        invariant
            n == cs@.len(),
            cs@ == text@,
            start <= i <= n,
            body@ == cs@.subrange(start as int, i as int),
        decreases n - i,
    {
        body.push(cs[i]);
        assert(body@ =~= cs@.subrange(start as int, i + 1));
        i = i + 1;
    }
    assert(body@ =~= body_spec);
    let parts = split_fields(body.as_slice(), '.');
    proof {
        lemma_split_nonempty(body@, '.');
        assert(views(parts@).len() == parts@.len());
        assert(views(parts@)[0] == parts@[0]@);
        if parts@.len() == 2 {
            assert(views(parts@)[1] == parts@[1]@);
        }
    }
    if parts.len() > 2 {
        return Err(amount_error(what, text));
    }
    let frac_len: usize = if parts.len() == 2 {
        parts[1].len()
    } else {
        0
    };
    if parts[0].len() == 0 && frac_len == 0 {
        return Err(amount_error(what, text));
    }
    if parts.len() == 2 && !all_digit_chars(parts[1].as_slice()) {
        return Err(amount_error(what, text));
    }
    proof {
        if parts@.len() != 2 {
            assert(all_digits(Seq::<char>::empty()));
        }
    }
    match parse_digits_u64(parts[0].as_slice()) {
        Some(v) => Ok(v),
        None => Err(amount_error(what, text)),
    }
}

/// The cash balance a balance inquiry reports: the deposit total of its
/// first summary row.
pub fn cash_balance(deposit_totals: &[String]) -> (r: StockrsResult<u64>)
    ensures
        deposit_totals@.len() == 0 ==> r matches Err(StockrsError::BalanceInquiry { .. }),
        deposit_totals@.len() > 0 ==> match won_amount_spec(deposit_totals@[0]@) {
            Some(v) => r == Ok::<u64, StockrsError>(v),
            None => r matches Err(StockrsError::Parsing { .. }),
        },
{
    if deposit_totals.len() == 0 {
        return Err(
            StockrsError::BalanceInquiry {
                reason: String::from_str("API 응답에서 잔고 정보를 찾을 수 없음"),
            },
        );
    }
    parse_won_amount(deposit_totals[0].as_str(), "예수금 총액")
}

/// The average purchase price of `stockcode` among the holdings, given as
/// `(code, average price)` in the order a balance inquiry lists them: that
/// of the first holding of the code.
pub fn holding_avg_price(holdings: &[(String, String)], stockcode: &str) -> (r: StockrsResult<u64>)
    ensures
        (forall|j: int| 0 <= j < holdings@.len() ==> (#[trigger] holdings@[j]).0@ != stockcode@)
            ==> r matches Err(StockrsError::Api { .. }),
        forall|i: int|
            0 <= i < holdings@.len() && (#[trigger] holdings@[i]).0@ == stockcode@ && (forall|j: int|
                0 <= j < i ==> holdings@[j].0@ != stockcode@) ==> match won_amount_spec(
                holdings@[i].1@,
            ) {
                Some(v) => r == Ok::<u64, StockrsError>(v),
                None => r matches Err(StockrsError::Parsing { .. }),
            },
{
    let n = holdings.len();
    let mut i: usize = 0;
    while i < n
        invariant
            n == holdings@.len(),
            i <= n,
            forall|j: int| 0 <= j < i ==> (#[trigger] holdings@[j]).0@ != stockcode@,
        decreases n - i,
    {
        if str_equals(holdings[i].0.as_str(), stockcode) {
            let r = parse_won_amount(holdings[i].1.as_str(), "평균가");
            assert forall|k: int|
                0 <= k < holdings@.len() && (#[trigger] holdings@[k]).0@ == stockcode@ && (forall|
                    j: int,
                | 0 <= j < k ==> holdings@[j].0@ != stockcode@) implies k == i by {
                if k > i {
                    assert(holdings@[i as int].0@ == stockcode@);
                }
            }
            return r;
        }
        i = i + 1;
    }
    Err(StockrsError::Api { message: String::from_str("보유하지 않은 종목입니다") })
}

/// The latest closing price a daily-price inquiry reports: that of its
/// first row, the most recent day.
pub fn latest_close(closes: &[String]) -> (r: StockrsResult<u64>)
    ensures
        closes@.len() == 0 ==> r matches Err(StockrsError::Api { .. }),
        closes@.len() > 0 ==> match won_amount_spec(closes@[0]@) {
            Some(v) => r == Ok::<u64, StockrsError>(v),
            None => r matches Err(StockrsError::Parsing { .. }),
        },
{
    if closes.len() == 0 {
        return Err(
            StockrsError::Api {
                message: String::from_str(
                    "가격 데이터가 비어있음 (거래일이 아니거나 종목 코드 오류)",
                ),
            },
        );
    }
    parse_won_amount(closes[0].as_str(), "현재가")
}

/// The fill record of an order from the rows a daily fill inquiry lists for
/// it, each given as `(quantity still open, average fill price)`: the first
/// row read, or none when no row is listed yet.
pub fn fill_record(rows: &[(String, String)]) -> (r: StockrsResult<Option<FillInfo>>)
    ensures
        rows@.len() == 0 ==> r == Ok::<Option<FillInfo>, StockrsError>(None),
        rows@.len() > 0 ==> match (won_amount_spec(rows@[0].0@), won_amount_spec(rows@[0].1@)) {
            (Some(q), Some(a)) => r == Ok::<Option<FillInfo>, StockrsError>(
                Some(FillInfo { rmn_qty: q, avg_prvs: a }),
            ),
            _ => r matches Err(StockrsError::Parsing { .. }),
        },
{
    if rows.len() == 0 {
        return Ok(None);
    }
    let rmn_qty = parse_won_amount(rows[0].0.as_str(), "미체결 수량")?;
    let avg_prvs = parse_won_amount(rows[0].1.as_str(), "체결 평균가")?;
    Ok(Some(FillInfo { rmn_qty, avg_prvs }))
}

/// The first `limit` codes of a ranking, in order.
pub fn leading_codes(codes: Vec<String>, limit: usize) -> (r: Vec<String>)
    ensures
        r@ == (if codes@.len() > limit {
            codes@.take(limit as int)
        } else {
            codes@
        }),
{
    let mut out = codes;
    if out.len() > limit {
        out.truncate(limit);
    }
    out
}

} // verus!

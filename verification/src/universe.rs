//! The stocks the prediction model looks at: table names of stock codes,
//! positions of trading dates, the candidates kept from a volume ranking,
//! and the line lists (stock codes, feature names, dates) read from files.
use vstd::prelude::*;
use crate::error::{StockrsError, StockrsResult};
use crate::text::{chars_of, str_equals};
use crate::types::TradingMode;

verus! {

/// The table that holds a stock's rows: the code itself when it already
/// starts with `A`, else the code with `A` in front.
pub open spec fn table_name_spec(code: Seq<char>) -> Seq<char> {
    if code.len() > 0 && code[0] == 'A' {
        code
    } else {
        seq!['A'] + code
    }
}

/// The table that holds a stock's rows.
pub fn get_table_name(stock_code: &str) -> (r: String)
    ensures
        r@ == table_name_spec(stock_code@),
{
    let cs = chars_of(stock_code);
    if cs.len() > 0 && cs[0] == 'A' {
        stock_code.to_owned()
    } else {
        let prefix = String::from_str("A");
        proof {
            reveal_strlit("A");
        }
        let r = prefix.concat(stock_code);
        assert(r@ =~= seq!['A'] + stock_code@);
        r
    }
}

/// The views of a sequence of strings.
pub open spec fn string_views(v: Seq<String>) -> Seq<Seq<char>> {
    v.map_values(|s: String| s@)
}

/// The first position of `date` in the trading dates, if it is one.
pub fn find_index(dates: &[String], date: &str) -> (r: Option<usize>)
    ensures
        match r {
            Some(i) => {
                &&& i < dates@.len()
                &&& dates@[i as int]@ == date@
                &&& forall|j: int| 0 <= j < i ==> dates@[j]@ != date@
            },
            None => forall|j: int| 0 <= j < dates@.len() ==> dates@[j]@ != date@,
        },
{
    let n = dates.len();
    let mut i: usize = 0;
    while i < n
        invariant
            n == dates@.len(),
            i <= n,
            forall|j: int| 0 <= j < i ==> dates@[j]@ != date@,
        decreases n - i,
    {
        if str_equals(dates[i].as_str(), date) {
            return Some(i);
        }
        i = i + 1;
    }
    None
}

/// Stock codes as the brokerage ranks them, written the way the tables
/// and the included-stock list write them.
pub fn to_table_codes(codes: Vec<String>) -> (r: Vec<String>)
    ensures
        r@.len() == codes@.len(),
        forall|i: int| 0 <= i < codes@.len() ==> #[trigger] r@[i]@ == table_name_spec(codes@[i]@),
{
    let mut out: Vec<String> = Vec::new();
    let n = codes.len();
    let mut i: usize = 0;
    while i < n
        invariant
            n == codes@.len(),
            i <= n,
            out@.len() == i,
            forall|k: int| 0 <= k < i ==> #[trigger] out@[k]@ == table_name_spec(codes@[k]@),
        decreases n - i,
    {
        out.push(get_table_name(codes[i].as_str()));
        i = i + 1;
    }
    out
}

/// The codes of `top` that the included list holds, in ranking order.
pub open spec fn included_in_order(top: Seq<Seq<char>>, included: Seq<Seq<char>>) -> Seq<Seq<char>>
    decreases top.len(),
{
    if top.len() == 0 {
        Seq::empty()
    } else {
        let rest = included_in_order(top.drop_last(), included);
        if included.contains(top.last()) {
            rest.push(top.last())
        } else {
            rest
        }
    }
}

/// How many candidates the prediction model scores at most.
pub const MAX_CANDIDATES: usize = 10;

/// The candidates of a day: the ranked codes that the included list holds,
/// in ranking order, the first ten of them.
pub open spec fn candidates_spec(top: Seq<Seq<char>>, included: Seq<Seq<char>>) -> Seq<Seq<char>> {
    let kept = included_in_order(top, included);
    if kept.len() > 10 {
        kept.take(10)
    } else {
        kept
    }
}

fn list_contains(list: &Vec<String>, code: &String) -> (r: bool)
    ensures
        r == string_views(list@).contains(code@),
{
    let n = list.len();
    let mut i: usize = 0;
    while i < n
        invariant
            n == list@.len(),
            i <= n,
            forall|j: int| 0 <= j < i ==> list@[j]@ != code@,
        decreases n - i,
    {
        if str_equals(list[i].as_str(), code.as_str()) {
            assert(string_views(list@)[i as int] == code@);
            return true;
        }
        i = i + 1;
    }
    assert forall|j: int| 0 <= j < string_views(list@).len() implies string_views(list@)[j]
        != code@ by {
        assert(string_views(list@)[j] == list@[j]@);
    }
    false
}

/// Keeps the ranked codes that the included list holds, in ranking order,
/// and the first ten of them; an error when none is kept.
pub fn select_candidate_stocks(top_stocks: Vec<String>, included: &Vec<String>) -> (r: StockrsResult<Vec<String>>)
    ensures
        ({
            let expected = candidates_spec(string_views(top_stocks@), string_views(included@));
            match r {
                Ok(v) => expected.len() > 0 && string_views(v@) == expected,
                Err(e) => expected.len() == 0 && e is Prediction,
            }
        }),
{
    let n = top_stocks.len();
    let mut kept: Vec<String> = Vec::new();
    let mut i: usize = 0;
    let ghost tv = string_views(top_stocks@);
    let ghost iv = string_views(included@);
    while i < n
        invariant
            n == top_stocks@.len(),
            tv == string_views(top_stocks@),
            iv == string_views(included@),
            i <= n,
            string_views(kept@) == included_in_order(tv.take(i as int), iv),
        decreases n - i,
    {
        let code = &top_stocks[i];
        proof {
            assert(tv.take(i + 1).drop_last() =~= tv.take(i as int));
            assert(tv.take(i + 1).last() == code@);
        }
        if list_contains(included, code) {
            kept.push(code.clone());
            assert(string_views(kept@) =~= included_in_order(tv.take(i as int), iv).push(code@));
        }
        i = i + 1;
    }
    assert(tv.take(n as int) =~= tv);
    if kept.len() == 0 {
        return Err(
            StockrsError::Prediction { message: String::from_str("no stock left to analyse") },
        );
    }
    if kept.len() > MAX_CANDIDATES {
        kept.truncate(MAX_CANDIDATES);
        assert(string_views(kept@) =~= included_in_order(tv, iv).take(10));
    }
    Ok(kept)
}

/// The word each trading mode is recorded under.
pub open spec fn mode_word(mode: TradingMode) -> Seq<char> {
    match mode {
        TradingMode::Real => "real"@,
        TradingMode::Paper => "paper"@,
        TradingMode::Backtest => "backtest"@,
    }
}

/// The word a trading mode is recorded under.
pub fn trading_mode_str(mode: TradingMode) -> (r: &'static str)
    ensures
        r@ == mode_word(mode),
{
    match mode {
        TradingMode::Real => "real",
        TradingMode::Paper => "paper",
        TradingMode::Backtest => "backtest",
    }
}

/// The characters `char::is_whitespace` accepts (Unicode `White_Space`).
pub open spec fn is_white_space(c: char) -> bool {
    ||| '\u{9}' <= c <= '\u{d}'
    ||| c == ' '
    ||| c == '\u{85}'
    ||| c == '\u{a0}'
    ||| c == '\u{1680}'
    ||| '\u{2000}' <= c <= '\u{200a}'
    ||| c == '\u{2028}'
    ||| c == '\u{2029}'
    ||| c == '\u{202f}'
    ||| c == '\u{205f}'
    ||| c == '\u{3000}'
}

/// `s` without its leading white space.
pub open spec fn trim_start_spec(s: Seq<char>) -> Seq<char>
    decreases s.len(),
{
    if s.len() > 0 && is_white_space(s[0]) {
        trim_start_spec(s.drop_first())
    } else {
        s
    }
}

/// `s` without its trailing white space.
pub open spec fn trim_end_spec(s: Seq<char>) -> Seq<char>
    decreases s.len(),
{
    if s.len() > 0 && is_white_space(s.last()) {
        trim_end_spec(s.drop_last())
    } else {
        s
    }
}

/// `str::trim`: `s` without leading and trailing white space.
pub open spec fn trim_spec(s: Seq<char>) -> Seq<char> {
    trim_end_spec(trim_start_spec(s))
}

/// The trimmed lines that are not empty, in order.
pub open spec fn listing_spec(lines: Seq<Seq<char>>) -> Seq<Seq<char>>
    decreases lines.len(),
{
    if lines.len() == 0 {
        Seq::empty()
    } else {
        let rest = listing_spec(lines.drop_last());
        let t = trim_spec(lines.last());
        if t.len() > 0 {
            rest.push(t)
        } else {
            rest
        }
    }
}

/// The entries of a one-entry-per-line list file: each line trimmed, blank
/// lines skipped.
pub open spec fn listed_entries(text: Seq<char>) -> Seq<Seq<char>> {
    listing_spec(crate::text::split_spec(text, '\n'))
}

fn is_white_space_char(c: char) -> (r: bool)
    ensures
        r == is_white_space(c),
{
    ('\u{9}' <= c && c <= '\u{d}') || c == ' ' || c == '\u{85}' || c == '\u{a0}' || c == '\u{1680}'
        || ('\u{2000}' <= c && c <= '\u{200a}') || c == '\u{2028}' || c == '\u{2029}' || c
        == '\u{202f}' || c == '\u{205f}' || c == '\u{3000}'
}

/// The bounds of `cs[from..to]` once trimmed.
fn trim_bounds(cs: &Vec<char>, from: usize, to: usize) -> (r: (usize, usize))
    requires
        from <= to <= cs@.len(),
    ensures
        from <= r.0 <= r.1 <= to,
        cs@.subrange(r.0 as int, r.1 as int) == trim_spec(cs@.subrange(from as int, to as int)),
{
    let mut a = from;
    while a < to && is_white_space_char(cs[a])
        invariant
            from <= a <= to <= cs@.len(),
            trim_start_spec(cs@.subrange(from as int, to as int)) == trim_start_spec(
                cs@.subrange(a as int, to as int),
            ),
        decreases to - a,
    {
        assert(cs@.subrange(a as int, to as int).drop_first() =~= cs@.subrange(a + 1, to as int));
        a = a + 1;
    }
    assert(trim_start_spec(cs@.subrange(a as int, to as int)) == cs@.subrange(a as int, to as int));
    let mut b = to;
    while b > a && is_white_space_char(cs[b - 1])
        invariant
            from <= a <= b <= to <= cs@.len(),
            trim_end_spec(cs@.subrange(a as int, to as int)) == trim_end_spec(
                cs@.subrange(a as int, b as int),
            ),
        decreases b - a,
    {
        assert(cs@.subrange(a as int, b as int).drop_last() =~= cs@.subrange(a as int, b - 1));
        b = b - 1;
    }
    assert(trim_end_spec(cs@.subrange(a as int, b as int)) == cs@.subrange(a as int, b as int));
    (a, b)
}

/// The entries of a one-entry-per-line list file: each line trimmed, blank
/// lines skipped.
pub fn parse_listing(text: &str) -> (r: Vec<String>)
    ensures
        string_views(r@) == listed_entries(text@),
{
    let cs = chars_of(text);
    let n = cs.len();
    let mut out: Vec<String> = Vec::new();
    let mut start: usize = 0;
    let mut i: usize = 0;
    let ghost mut lines: Seq<Seq<char>> = Seq::empty();
    assert(cs@.subrange(0, 0) =~= Seq::<char>::empty());
    assert(crate::text::split_spec(cs@.subrange(0, 0), '\n') =~= lines.push(cs@.subrange(0, 0)));
    while i < n
        invariant
            n == cs@.len(),
            cs@ == text@,
            start <= i <= n,
            crate::text::split_spec(cs@.subrange(0, i as int), '\n') == lines.push(
                cs@.subrange(start as int, i as int),
            ),
            string_views(out@) == listing_spec(lines),
        decreases n - i,
    {
        let c = cs[i];
        let ghost pre = cs@.subrange(0, i as int);
        assert(cs@.subrange(0, i + 1).drop_last() =~= pre);
        assert(cs@.subrange(0, i + 1).last() == c);
        if c == '\n' {
            let (a, b) = trim_bounds(&cs, start, i);
            let ghost line = cs@.subrange(start as int, i as int);
            if a < b {
                let entry = text.substring_char(a, b).to_owned();
                out.push(entry);
            }
            proof {
                assert(lines.push(line).drop_last() =~= lines);
                assert(lines.push(line).last() == line);
                lines = lines.push(line);
                assert(string_views(out@) =~= listing_spec(lines));
            }
            start = i + 1;
            assert(cs@.subrange(start as int, i + 1) =~= Seq::<char>::empty());
            assert(crate::text::split_spec(cs@.subrange(0, i + 1), '\n') == crate::text::split_spec(
                pre,
                '\n',
            ).push(Seq::<char>::empty()));
            assert(crate::text::split_spec(cs@.subrange(0, i + 1), '\n') =~= lines.push(
                cs@.subrange(start as int, i + 1),
            ));
        } else {
            let ghost cur = cs@.subrange(start as int, i as int);
            assert(cur.push(c) =~= cs@.subrange(start as int, i + 1));
            let ghost head = crate::text::split_spec(pre, '\n');
            assert(head == lines.push(cur));
            assert(crate::text::split_spec(cs@.subrange(0, i + 1), '\n') == head.update(
                head.len() - 1,
                head.last().push(c),
            ));
            assert(crate::text::split_spec(cs@.subrange(0, i + 1), '\n') =~= lines.push(
                cs@.subrange(start as int, i + 1),
            ));
        }
        i = i + 1;
    }
    let (a, b) = trim_bounds(&cs, start, n);
    let ghost line = cs@.subrange(start as int, n as int);
    if a < b {
        let entry = text.substring_char(a, b).to_owned();
        out.push(entry);
    }
    proof {
        assert(cs@.subrange(0, n as int) =~= cs@);
        assert(lines.push(line).drop_last() =~= lines);
        assert(string_views(out@) =~= listing_spec(lines.push(line)));
    }
    out
}

/// The stock codes of the included-stock list; an error when it names none.
pub fn load_included_stocks_from_text(text: &str) -> (r: StockrsResult<Vec<String>>)
    ensures
        match r {
            Ok(v) => string_views(v@) == listed_entries(text@) && v@.len() > 0,
            Err(e) => listed_entries(text@).len() == 0 && e is Parsing,
        },
{
    let stocks = parse_listing(text);
    if stocks.len() == 0 {
        return Err(
            StockrsError::Parsing {
                data_type: String::from_str("included-stock list"),
                reason: String::from_str("the list is empty or unreadable"),
            },
        );
    }
    Ok(stocks)
}

} // verus!

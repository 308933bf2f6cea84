use stockrs::error::StockrsError;
use stockrs::types::TradingMode;
use stockrs::universe::{
    find_index, get_table_name, load_included_stocks_from_text, parse_listing,
    select_candidate_stocks, to_table_codes, trading_mode_str, MAX_CANDIDATES,
};

fn strings(items: &[&str]) -> Vec<String> {
    items.iter().map(|s| s.to_string()).collect()
}

#[test]
fn table_names_carry_one_leading_a() {
    assert_eq!(get_table_name("005930"), "A005930");
    assert_eq!(get_table_name("A005930"), "A005930");
    assert_eq!(get_table_name(""), "A");
    assert_eq!(get_table_name(&get_table_name("000660")), "A000660");
    assert_eq!(get_table_name("a1"), "Aa1");
}

#[test]
fn table_codes_keep_their_order() {
    let codes = strings(&["005930", "A000660", "035420"]);
    assert_eq!(to_table_codes(codes), strings(&["A005930", "A000660", "A035420"]));
    assert!(to_table_codes(Vec::new()).is_empty());
}

#[test]
fn find_index_gives_the_first_position() {
    let dates = strings(&["20240102", "20240103", "20240104", "20240103"]);
    assert_eq!(find_index(&dates, "20240102"), Some(0));
    assert_eq!(find_index(&dates, "20240103"), Some(1));
    assert_eq!(find_index(&dates, "20240105"), None);
    assert_eq!(find_index(&[], "20240105"), None);
}

#[test]
fn candidates_keep_included_codes_in_ranking_order() {
    let included = strings(&["A3", "A1", "A5"]);
    let top = strings(&["A1", "A2", "A3", "A4", "A5", "A1"]);
    assert_eq!(select_candidate_stocks(top, &included).unwrap(), strings(&["A1", "A3", "A5", "A1"]));
}

#[test]
fn candidates_are_cut_at_ten() {
    let included: Vec<String> = (0..20).map(|i| format!("A{}", i)).collect();
    let top: Vec<String> = (0..15).rev().map(|i| format!("A{}", i)).collect();
    let picked = select_candidate_stocks(top, &included).unwrap();
    assert_eq!(picked.len(), MAX_CANDIDATES);
    assert_eq!(picked[0], "A14");
    assert_eq!(picked[9], "A5");
}

#[test]
fn no_candidate_is_an_error() {
    let included = strings(&["A9"]);
    let top = strings(&["A1", "A2"]);
    assert!(matches!(select_candidate_stocks(top, &included), Err(StockrsError::Prediction { .. })));
    assert!(matches!(select_candidate_stocks(Vec::new(), &included), Err(StockrsError::Prediction { .. })));
}

#[test]
fn listings_are_trimmed_and_skip_blank_lines() {
    assert_eq!(parse_listing("A005930\n  A000660 \r\n\n\t\nA035420"), strings(&["A005930", "A000660", "A035420"]));
    assert_eq!(parse_listing(""), Vec::<String>::new());
    assert_eq!(parse_listing("\n\n"), Vec::<String>::new());
    assert_eq!(parse_listing("one two\n"), strings(&["one two"]));
    assert_eq!(parse_listing("\u{3000}가나\u{a0}\n"), strings(&["가나"]));
}

#[test]
fn included_stock_list_must_name_a_stock() {
    assert_eq!(load_included_stocks_from_text("A1\nA2\n").unwrap(), strings(&["A1", "A2"]));
    assert!(matches!(load_included_stocks_from_text(" \n \n"), Err(StockrsError::Parsing { .. })));
}

#[test]
fn trading_modes_are_recorded_by_name() {
    assert_eq!(trading_mode_str(TradingMode::Real), "real");
    assert_eq!(trading_mode_str(TradingMode::Paper), "paper");
    assert_eq!(trading_mode_str(TradingMode::Backtest), "backtest");
}

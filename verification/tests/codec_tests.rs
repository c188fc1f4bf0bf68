use alpaca_rs::json::{parse_json, print_json, Json};
use alpaca_rs::model::broker::{decode_account, decode_transfer, encode_account};
use alpaca_rs::model::market::{decode_clock, decode_historical_bars, decode_historical_quotes, encode_clock, encode_historical_bars, encode_historical_quotes};
use alpaca_rs::model::trading::{decode_open_position, decode_order, encode_open_position, encode_order, OrderType};
use alpaca_rs::model::{OrderSide, OrderStatus, Side, Timeframe};
use alpaca_rs::util::{join_comma, parse_i64, parse_u64};
use alpaca_rs::model::broker::{decode_small_account, encode_small_account};
use alpaca_rs::model::market::{decode_calendar, encode_calendar};
use alpaca_rs::model::market::decode_snapshot;

#[test]
fn account_roundtrip_from_captured_example() {
    let captured = r#"{
        "id": "904837e3-3b76-47ec-b432-046db621571b",
        "account_number": "010203ABCD",
        "status": "ACTIVE",
        "crypto_status": "ACTIVE",
        "currency": "USD",
        "created_at": "2018-10-01T13:35:25Z",
        "last_equity": "103820.56",
        "portfolio_value": "103820.56",
        "cash": "-23140.2",
        "buying_power": "262113.632"
    }"#;
    let parsed = parse_json(captured).expect("captured account must parse");
    let account = decode_account(&parsed).expect("captured account must decode");
    assert_eq!(account.id, "904837e3-3b76-47ec-b432-046db621571b");
    assert_eq!(account.cash, "-23140.2");

    let reencoded = print_json(&encode_account(&account));
    let reparsed = parse_json(reencoded.as_str()).expect("re-encoded account must parse");
    let again = decode_account(&reparsed).expect("re-encoded account must decode");
    assert_eq!(again.id, account.id);
    assert_eq!(again.account_number, account.account_number);
    assert_eq!(again.currency, account.currency);
    assert_eq!(again.created_at, account.created_at);
    assert_eq!(again.last_equity, account.last_equity);
    assert_eq!(again.portfolio_value, account.portfolio_value);
    assert_eq!(again.cash, account.cash);
    assert_eq!(again.buying_power, account.buying_power);
    assert!(matches!(again.status, alpaca_rs::model::AccountStatus::Active));
}

#[test]
fn order_roundtrip_keeps_limit_price_value() {
    let captured = r#"{"id":"61e69015","symbol":"AAPL","status":"new","side":"buy","type":"limit","limit_price":"107.00"}"#;
    let parsed = parse_json(captured).expect("captured order must parse");
    let order = decode_order(&parsed).expect("captured order must decode");
    assert_eq!(order.symbol, "AAPL");
    assert!(matches!(order.side, OrderSide::Buy));
    match &order.kind {
        OrderType::Limit { limit_price } => assert_eq!(limit_price, "107.00"),
        other => panic!("expected a limit order, got {:?}", other),
    }
    let reencoded = print_json(&encode_order(&order));
    let again = decode_order(&parse_json(reencoded.as_str()).unwrap()).unwrap();
    assert_eq!(again.id, order.id);
    assert_eq!(again.symbol, order.symbol);
    match &again.kind {
        OrderType::Limit { limit_price } => assert_eq!(limit_price, "107.00"),
        other => panic!("expected a limit order, got {:?}", other),
    }
}

#[test]
fn trailing_stop_order_roundtrip() {
    let captured = r#"{"id":"x1","symbol":"MSFT","status":"accepted","side":"sell","trail_percent":"1.5"}"#;
    let order = decode_order(&parse_json(captured).unwrap()).expect("trailing stop must decode");
    let reencoded = print_json(&encode_order(&order));
    let again = decode_order(&parse_json(reencoded.as_str()).unwrap()).unwrap();
    assert_eq!(again.symbol, "MSFT");
    assert!(matches!(
        again.kind,
        OrderType::TrailingStop(alpaca_rs::model::trading::TrailingStop::Percent(ref p)) if p == "1.5"
    ));
}

#[test]
fn clock_roundtrip() {
    let captured = r#"{"timestamp":"2024-01-02T08:00:00-05:00","is_open":false,"next_open":"2024-01-02T09:30:00-05:00","next_close":"2024-01-02T16:00:00-05:00"}"#;
    let clock = decode_clock(&parse_json(captured).unwrap()).expect("clock must decode");
    assert!(!clock.is_open);
    let again = decode_clock(&parse_json(print_json(&encode_clock(&clock)).as_str()).unwrap()).unwrap();
    assert_eq!(again.timestamp, clock.timestamp);
    assert_eq!(again.next_open, clock.next_open);
    assert_eq!(again.next_close, clock.next_close);
    assert_eq!(again.is_open, clock.is_open);
}

#[test]
fn open_position_roundtrip_with_unset_optionals() {
    let captured = r#"{
        "asset_id":"904837e3","symbol":"AAPL","exchange":"NASDAQ","asset_class":"us_equity",
        "avg_entry_price":"100.0","qty":"-5","side":"short","market_value":"600.0",
        "cost_basis":"500.0","unrealized_pl":"100.0","unrealized_plpc":"0.20",
        "unrealized_intraday_pl":"10.0","unrealized_intraday_plpc":"0.0084",
        "current_price":"120.0","lastday_price":"119.0","change_today":"0.0084",
        "swap_rate":null
    }"#;
    let pos = decode_open_position(&parse_json(captured).unwrap()).expect("position must decode");
    assert_eq!(pos.qty, -5);
    assert!(matches!(pos.side, Side::Short));
    assert!(pos.asset_marginable.is_none());
    assert!(pos.swap_rate.is_none());
    let text = print_json(&encode_open_position(&pos));
    // unset optional fields are omitted entirely, never re-encoded as null
    assert!(!text.contains("null"));
    assert!(!text.contains("asset_marginable"));
    assert!(!text.contains("swap_rate"));
    let again = decode_open_position(&parse_json(text.as_str()).unwrap()).unwrap();
    assert_eq!(again.qty, pos.qty);
    assert_eq!(again.avg_entry_price, pos.avg_entry_price);
}

#[test]
fn historical_bars_roundtrip_preserves_numbers_lexically() {
    let captured = r#"{
        "bars": {"AAPL": [{"t":"2022-01-03T09:00:00Z","o":178.26,"h":178.26,"l":178.21,"c":178.21,"v":1118,"n":65,"vw":178.235733}]},
        "next_page_token": "QUFQTHxN",
        "currency": "USD"
    }"#;
    let bars = decode_historical_bars(&parse_json(captured).unwrap()).expect("bars must decode");
    assert_eq!(bars.bars.len(), 1);
    assert_eq!(bars.bars[0].0, "AAPL");
    assert_eq!(bars.bars[0].1[0].opening_price, "178.26");
    assert_eq!(bars.bars[0].1[0].volume, 1118);
    assert_eq!(bars.next_page_token.as_deref(), Some("QUFQTHxN"));
    let text = print_json(&encode_historical_bars(&bars));
    assert!(text.contains("178.235733"));
    let again = decode_historical_bars(&parse_json(text.as_str()).unwrap()).unwrap();
    assert_eq!(again.bars[0].1[0].avg_vol_weighted, "178.235733");
    assert_eq!(again.next_page_token, bars.next_page_token);
}

#[test]
fn historical_quotes_roundtrip() {
    let captured = r#"{"quotes":[{"t":"2022-01-03T09:00:00Z","bx":"Q","bp":178.25,"bs":2,"ax":"Q","ap":178.3,"as":1,"c":["R"],"z":"C"}],"next_page_token":null}"#;
    let page = decode_historical_quotes(&parse_json(captured).unwrap()).expect("quotes must decode");
    assert_eq!(page.quotes.len(), 1);
    assert_eq!(page.quotes[0].bid_price, "178.25");
    assert!(page.next_page_token.is_none());
    let text = print_json(&encode_historical_quotes(&page));
    let again = decode_historical_quotes(&parse_json(text.as_str()).unwrap()).unwrap();
    assert_eq!(again.quotes[0].ask_price, "178.3");
    assert_eq!(again.quotes[0].bid_size, 2);
}

#[test]
fn transfer_roundtrip_keeps_amount_value() {
    let captured = r#"{"id":"t1","account_id":"a1","type":"ACH","status":"QUEUED","amount":"1234.56","direction":"INCOMING","created_at":"2024-01-02T00:00:00Z"}"#;
    let transfer = decode_transfer(&parse_json(captured).unwrap()).expect("transfer must decode");
    assert_eq!(transfer.amount, "1234.56");
    let text = print_json(&alpaca_rs::model::broker::encode_transfer(&transfer));
    let again = decode_transfer(&parse_json(text.as_str()).unwrap()).unwrap();
    assert_eq!(again.amount, "1234.56");
    assert!(matches!(again.status, alpaca_rs::model::TransferStatus::Queued));
}

#[test]
fn parser_keeps_number_lexical_form() {
    let parsed = parse_json("3.1400").expect("number must parse");
    match &parsed {
        Json::Num(s) => assert_eq!(s, "3.1400"),
        other => panic!("expected a number, got {:?}", other),
    }
}

#[test]
fn parser_handles_whitespace_and_nesting() {
    let parsed = parse_json("  { \"a\" : [ 1 , true , null , \"x\" ] }\n").expect("must parse");
    let items = parsed.get("a").expect("member a").as_arr().expect("array");
    assert_eq!(items.len(), 4);
    assert!(matches!(items[1], Json::Bool(true)));
    assert!(matches!(items[2], Json::Null));
}

#[test]
fn parser_rejects_malformed_documents() {
    assert!(parse_json("").is_none());
    assert!(parse_json("{").is_none());
    assert!(parse_json("[1,]").is_none());
    assert!(parse_json("{\"a\":}").is_none());
    assert!(parse_json("12.").is_none());
    assert!(parse_json("true false").is_none());
}

#[test]
fn integer_text_parsing_edges() {
    assert_eq!(parse_u64("0"), Some(0));
    assert_eq!(parse_u64("18446744073709551615"), Some(u64::MAX));
    assert_eq!(parse_u64("18446744073709551616"), None);
    assert_eq!(parse_u64("12a"), None);
    assert_eq!(parse_i64("-5"), Some(-5));
    assert_eq!(parse_i64("-9223372036854775808"), Some(i64::MIN));
    assert_eq!(parse_i64("9223372036854775808"), None);
    assert_eq!(parse_i64(""), None);
}

#[test]
fn order_status_unknown_names_read_as_unknown() {
    assert!(matches!(OrderStatus::from_wire("held"), Some(OrderStatus::Held)));
    assert!(matches!(OrderStatus::from_wire("somenewstate"), Some(OrderStatus::Unknown)));
    let mut held = OrderStatus::Held;
    assert!(!held.is_terminal());
    held = OrderStatus::Filled;
    assert!(held.is_terminal());
}

#[test]
fn timeframe_wire_text_forms() {
    assert_eq!(Timeframe::Minutes(30).wire_text(), "30T");
    assert_eq!(Timeframe::Hours(2).wire_text(), "2H");
    assert_eq!(Timeframe::Day.wire_text(), "1D");
    assert_eq!(Timeframe::Week.wire_text(), "1W");
    assert_eq!(Timeframe::Months(3).wire_text(), "3M");
}

#[test]
fn timeframe_parse_accepts_both_endings() {
    assert_eq!(Timeframe::parse("30T"), Ok(Timeframe::Minutes(30)));
    assert_eq!(Timeframe::parse("30Min"), Ok(Timeframe::Minutes(30)));
    assert_eq!(Timeframe::parse("2H"), Ok(Timeframe::Hours(2)));
    assert_eq!(Timeframe::parse("2Hour"), Ok(Timeframe::Hours(2)));
    assert_eq!(Timeframe::parse("1D"), Ok(Timeframe::Day));
    assert_eq!(Timeframe::parse("Day"), Ok(Timeframe::Day));
    assert_eq!(Timeframe::parse("1W"), Ok(Timeframe::Week));
    assert_eq!(Timeframe::parse("Week"), Ok(Timeframe::Week));
    assert_eq!(Timeframe::parse("3M"), Ok(Timeframe::Months(3)));
    assert_eq!(Timeframe::parse("3Month"), Ok(Timeframe::Months(3)));
    assert_eq!(Timeframe::parse(""), Err("no characters"));
    assert_eq!(Timeframe::parse("T"), Err("no characters"));
    assert_eq!(Timeframe::parse("xT"), Err("invalid number"));
    // only the first two head characters carry the count
    assert_eq!(Timeframe::parse("300T"), Ok(Timeframe::Minutes(30)));
    assert_eq!(Timeframe::parse("5X"), Err("invalid ending character"));
}

#[test]
fn comma_join_is_exact() {
    let symbols = vec![String::from("AAPL"), String::from("MSFT")];
    assert_eq!(join_comma(&symbols), "AAPL,MSFT");
    assert_eq!(join_comma(&vec![]), "");
    assert_eq!(join_comma(&vec![String::from("SPY")]), "SPY");
}

#[test]
fn small_account_roundtrip() {
    let captured = r#"{"id":"s1","account_number":"77","status":"SUBMITTED","crypto_status":"ACTIVE","currency":"USD","last_equity":"0","created_at":"2024-01-01T00:00:00Z","account_type":"trading","enabled_assets":["us_equity"]}"#;
    let account = decode_small_account(&parse_json(captured).unwrap()).unwrap();
    assert_eq!(account.enabled_assets, vec![String::from("us_equity")]);
    let text = print_json(&encode_small_account(&account));
    let again = decode_small_account(&parse_json(text.as_str()).unwrap()).unwrap();
    assert_eq!(again.account_number, "77");
    assert!(matches!(again.status, alpaca_rs::model::AccountStatus::Submitted));
}

#[test]
fn calendar_roundtrip() {
    let captured = r#"[{"date":"2024-01-02","open":"09:30","close":"16:00","settlement_date":"2024-01-04"}]"#;
    let calendar = decode_calendar(&parse_json(captured).unwrap()).unwrap();
    assert_eq!(calendar.0.len(), 1);
    assert_eq!(calendar.0[0].open, "09:30");
    let text = print_json(&encode_calendar(&calendar));
    let again = decode_calendar(&parse_json(text.as_str()).unwrap()).unwrap();
    assert_eq!(again.0[0].settlement_date, "2024-01-04");
}

#[test]
fn snapshot_decode_reads_nested_records() {
    let bar = r#"{"t":"2022-01-03T09:00:00Z","o":1.0,"h":2.0,"l":0.5,"c":1.5,"v":10,"n":2,"vw":1.2}"#;
    let quote = r#"{"t":"2022-01-03T09:00:00Z","bx":"Q","bp":1.0,"bs":1,"ax":"Q","ap":1.1,"as":1,"c":[],"z":"C"}"#;
    let trade = r#"{"t":"2022-01-03T09:00:00Z","x":"Q","p":1.05,"s":5,"i":77,"c":[],"z":"C"}"#;
    let captured = format!(
        r#"{{"dailyBar":{bar},"latestQuote":{quote},"latestTrade":{trade},"minuteBar":{bar},"prev_daily_bar":{bar}}}"#
    );
    let snapshot = decode_snapshot(&parse_json(captured.as_str()).unwrap()).unwrap();
    assert_eq!(snapshot.latest_trade.trade_id, 77);
    assert_eq!(snapshot.daily_bar.closing_price, "1.5");
}

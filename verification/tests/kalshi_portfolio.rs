use openpx::json::{parse_json, Json};
use openpx::kalshi::catalog::event_with_markets;
use openpx::kalshi::market::parse_event_as_market;
use openpx::kalshi::portfolio::{fills_path, parse_position, positions_path, single_order_body};
use openpx::models::{OrderOutcome, OrderSide, OrderType, Price};

fn doc(text: &str) -> Json {
    parse_json(text).expect("test JSON must parse")
}

fn member<'a>(j: &'a Json, key: &str) -> Option<&'a Json> {
    match j {
        Json::Object(m) => m.iter().find(|(k, _)| k == key).map(|(_, v)| v),
        _ => None,
    }
}

fn text_of(j: &Json, key: &str) -> String {
    match member(j, key) {
        Some(Json::Str(s)) => s.clone(),
        other => panic!("member {} is not text: {:?}", key, other),
    }
}

#[test]
fn kalshi_position_fields() {
    let p = parse_position(&doc(
        r#"{"ticker":"KX-1","position_fp":"-12.50","position":3,"total_traded_dollars":"4.20","market_exposure":150}"#,
    ));
    assert_eq!(p.market_ticker, "KX-1");
    assert_eq!(p.position.as_deref(), Some("-12.50"));
    assert!(matches!(p.total_traded, Some(Price::Decimal(ref t)) if t == "4.20"));
    assert!(matches!(p.market_exposure, Some(Price::Cents(ref t)) if t == "150"));

    let legacy = parse_position(&doc(r#"{"ticker":"KX-2","position_fp":"n/a","position":-4}"#));
    assert_eq!(legacy.position.as_deref(), Some("-4"));
    assert!(legacy.total_traded.is_none());

    let empty = parse_position(&doc(r#"[]"#));
    assert_eq!(empty.market_ticker, "");
    assert!(empty.position.is_none());
}

#[test]
fn portfolio_requests() {
    assert_eq!(positions_path(None), "/portfolio/positions?count_filter=position");
    assert_eq!(positions_path(Some("KX")), "/portfolio/positions?count_filter=position&ticker=KX");
    assert_eq!(fills_path(None, None), "/portfolio/fills?limit=100");
    assert_eq!(fills_path(Some("KX"), Some(0)), "/portfolio/fills?limit=1&ticker=KX");
    assert_eq!(fills_path(None, Some(500)), "/portfolio/fills?limit=200");
    assert_eq!(fills_path(None, Some(42)), "/portfolio/fills?limit=42");
}

fn is_v4_uuid(s: &str) -> bool {
    let c: Vec<char> = s.chars().collect();
    c.len() == 36
        && c.iter().enumerate().all(|(i, ch)| {
            if [8, 13, 18, 23].contains(&i) {
                *ch == '-'
            } else {
                ch.is_ascii_digit() || ('a'..='f').contains(ch)
            }
        })
        && c[14] == '4'
        && "89ab".contains(c[19])
}

#[test]
fn single_order_bodies() {
    let b = single_order_body("KX-1", OrderOutcome::No, OrderSide::Buy, "5.00", "0.3500", OrderType::Ioc);
    let keys: Vec<String> = match &b {
        Json::Object(m) => m.iter().map(|(k, _)| k.clone()).collect(),
        _ => panic!("not an object"),
    };
    assert_eq!(
        keys,
        vec!["ticker", "client_order_id", "side", "count", "price", "time_in_force", "self_trade_prevention_type"]
    );
    assert_eq!(text_of(&b, "ticker"), "KX-1");
    assert_eq!(text_of(&b, "side"), "ask");
    assert_eq!(text_of(&b, "count"), "5.00");
    assert_eq!(text_of(&b, "price"), "0.3500");
    assert_eq!(text_of(&b, "time_in_force"), "immediate_or_cancel");
    assert_eq!(text_of(&b, "self_trade_prevention_type"), "taker_at_cross");
    let id = text_of(&b, "client_order_id");
    assert!(is_v4_uuid(&id), "{}", id);

    let again = single_order_body("KX-1", OrderOutcome::No, OrderSide::Buy, "5.00", "0.3500", OrderType::Ioc);
    assert_ne!(text_of(&again, "client_order_id"), id);

    let yes_sell = single_order_body("KX-1", OrderOutcome::Yes, OrderSide::Sell, "1", "0.5", OrderType::Gtc);
    assert_eq!(text_of(&yes_sell, "side"), "ask");
    assert_eq!(text_of(&yes_sell, "time_in_force"), "good_till_canceled");
    let no_sell = single_order_body("KX-1", OrderOutcome::No, OrderSide::Sell, "1", "0.5", OrderType::Fok);
    assert_eq!(text_of(&no_sell, "side"), "bid");
    assert_eq!(text_of(&no_sell, "time_in_force"), "fill_or_kill");
}

#[test]
fn event_market_tickers() {
    let own = doc(r#"{"event_ticker":"EV","title":"T","markets":[{"ticker":"A"},{"ticker":"B"}]}"#);
    let beside = vec![doc(r#"{"ticker":"X"}"#)];
    let e = event_with_markets(&own, Some(&beside)).expect("an event");
    assert_eq!(e.ticker, "EV");
    assert_eq!(e.market_tickers, vec!["A".to_string(), "B".to_string()]);

    let bare = doc(r#"{"event_ticker":"EV2","title":"T"}"#);
    let e = event_with_markets(&bare, Some(&beside)).expect("an event");
    assert_eq!(e.market_tickers, vec!["X".to_string()]);
    let e = event_with_markets(&bare, None).expect("an event");
    assert!(e.market_tickers.is_empty());

    assert!(event_with_markets(&doc(r#"{"title":"no ticker"}"#), None).is_none());
}

#[test]
fn event_as_categorical_market() {
    let event = doc(r#"{"event_ticker":"EV","title":"Who wins?","subtitle":"","description":"Pick one"}"#);
    let markets = vec![
        doc(r#"{"ticker":"EV-A","yes_sub_title":"Alice","yes_ask_dollars":"0.4000","volume_fp":"12.00","close_time":"2030-01-01T00:00:00Z"}"#),
        doc(r#"{"ticker":"EV-B","title":"Bob","last_price":35,"volume":7,"expiration_time":"2031-01-01T00:00:00Z"}"#),
        doc(r#"{"ticker":"EV-C"}"#),
    ];
    let m = parse_event_as_market(&event, &markets).expect("a market");
    assert_eq!(m.openpx_id, "kalshi:EV");
    assert_eq!(m.ticker, "EV");
    assert_eq!(m.title, "Who wins?");
    assert_eq!(m.rules, None);
    assert_eq!(m.outcome_labels, vec!["Alice".to_string(), "Bob".to_string(), "EV-C".to_string()]);
    assert!(matches!(m.outcome_prices[0], Some(Price::Decimal(ref p)) if p == "0.4000"));
    assert!(matches!(m.outcome_prices[1], Some(Price::Cents(ref p)) if p == "35"));
    assert!(m.outcome_prices[2].is_none());
    assert_eq!(m.volumes, vec![Some("12.00".to_string()), Some("7".to_string()), None]);
    assert_eq!(m.close_time, Some(1_924_992_000_000));

    let described = doc(r#"{"event_ticker":"EV","title":"T","description":"Pick one"}"#);
    let m = parse_event_as_market(&described, &markets).unwrap();
    assert_eq!(m.rules.as_deref(), Some("Pick one"));

    let broken = vec![doc(r#"{"title":"no ticker"}"#)];
    assert!(parse_event_as_market(&event, &broken).is_none());
    assert!(parse_event_as_market(&doc(r#"{"title":"x"}"#), &markets).is_none());
}

use openpx::errors::{ExchangeError, OpenPxError};
use openpx::kalshi::portfolio::create_order_body;
use openpx::kalshi::ws::KalshiSubscriptions;
use openpx::json::{parse_json, Json};
use openpx::kalshi::batch::{
    batch_cancel_body, batch_create_body, cancelled_order, cancelled_orders, parse_batch_created,
    resting_order_ids, resting_orders_path, unified_to_kalshi_tif, v2_side,
};
use openpx::kalshi::error::KalshiError;
use openpx::kalshi::exchange::{response_error, signing_path, status_precheck};
use openpx::kalshi::fetcher::{body_step, is_last_page, status_step, BodyStep, StatusCursors, StatusStep};
use openpx::kalshi::listing::{finish_pages, plan_markets, CursorState, MarketsRequest};
use openpx::kalshi::market::parse_market;
use openpx::kalshi::normalize::normalize_kalshi_outcome;
use openpx::kalshi::orders::{parse_fill, parse_order};
use openpx::kalshi::trades::{orderbooks_batch_path, taker_side_outcome, trades_path};
use openpx::models::{
    FetchMarketsParams, MarketStatus, MarketStatusFilter, MarketType, NewOrder, OrderOutcome,
    OrderSide, OrderStatus, OrderType, Price,
};

fn doc(text: &str) -> Json {
    parse_json(text).expect("test JSON must parse")
}

fn params(status: Option<MarketStatusFilter>, cursor: Option<&str>) -> FetchMarketsParams {
    FetchMarketsParams {
        status,
        cursor: cursor.map(|c| c.to_string()),
        limit: None,
        series_ticker: None,
        event_ticker: None,
        event_id: None,
        market_tickers: Vec::new(),
    }
}

#[test]
fn market_minimal_response() {
    let v = doc(r#"{"ticker": "KX-1"}"#);
    let m = parse_market(&v).expect("market");
    assert_eq!(m.ticker, "KX-1");
    assert_eq!(m.openpx_id, "kalshi:KX-1");
    assert_eq!(m.exchange, "kalshi");
    assert_eq!(m.title, " | ");
    assert_eq!(m.status, MarketStatus::Active);
    assert_eq!(m.market_type, MarketType::Binary);
    assert!(m.yes_ask.is_none());
    assert_eq!(m.min_order_size, "1");
    assert!(m.rules.is_none());
    assert!(m.event_ticker.is_none());
}

#[test]
fn market_dollar_string_fields_preferred() {
    let v = doc(
        r#"{"ticker":"KX","yes_ask_dollars":"0.65","yes_ask":60,"yes_bid":55,"last_price_dollars":"bad","last_price":58,
            "volume_fp":"1500.5","volume":10,"volume_24h":7,"status":"finalized","market_type":"scalar",
            "yes_sub_title":"Up","no_sub_title":"Down","rules_primary":"P","rules_secondary":"",
            "price_ranges":[{"step":"0.01"},{"step":"x"},{"other":1},{"step":"0.001"}],
            "fractional_trading_enabled":true,"close_time":"1970-01-01T00:00:01Z",
            "settlement_ts":1700000000,"result":"yes","event_ticker":"EV"}"#,
    );
    let m = parse_market(&v).expect("market");
    assert!(matches!(m.yes_ask, Some(Price::Decimal(ref t)) if t == "0.65"));
    assert!(matches!(m.yes_bid, Some(Price::Cents(ref t)) if t == "55"));
    assert!(matches!(m.last_price, Some(Price::Cents(ref t)) if t == "58"));
    assert_eq!(m.volume.as_deref(), Some("1500.5"));
    assert_eq!(m.volume_24h.as_deref(), Some("7"));
    assert_eq!(m.status, MarketStatus::Resolved);
    assert_eq!(m.market_type, MarketType::Scalar);
    assert_eq!(m.title, "Up | Down");
    assert_eq!(m.rules.as_deref(), Some("P"));
    assert_eq!(m.tick_steps, vec!["0.01".to_string(), "0.001".to_string()]);
    assert_eq!(m.min_order_size, "0.01");
    assert_eq!(m.close_time, Some(1000));
    assert_eq!(m.settlement_time, Some(1_700_000_000_000));
    assert_eq!(m.result.as_deref(), Some("yes"));
    assert_eq!(m.event_ticker.as_deref(), Some("EV"));
}

#[test]
fn market_status_words() {
    for (word, want) in [
        ("active", MarketStatus::Active),
        ("determined", MarketStatus::Resolved),
        ("closed", MarketStatus::Closed),
        ("initialized", MarketStatus::Closed),
    ] {
        let v = doc(&format!(r#"{{"ticker":"K","status":"{word}"}}"#));
        assert_eq!(parse_market(&v).unwrap().status, want);
    }
    assert!(parse_market(&doc(r#"{"title":"no ticker"}"#)).is_none());
}

#[test]
fn rules_join() {
    let v = doc(r#"{"ticker":"K","rules_primary":"A","rules_secondary":"B"}"#);
    assert_eq!(parse_market(&v).unwrap().rules.as_deref(), Some("A | B"));
    let v = doc(r#"{"ticker":"K","rules_primary":"","rules_secondary":"B"}"#);
    assert_eq!(parse_market(&v).unwrap().rules.as_deref(), Some("B"));
}

#[test]
fn listing_plans() {
    let mut p = params(None, None);
    p.market_tickers = vec!["A".to_string(), "B".to_string()];
    match plan_markets(&p) {
        MarketsRequest::Tickers(e) => assert_eq!(e, "/markets?tickers=A,B"),
        other => panic!("{other:?}"),
    }
    let mut p = params(None, None);
    p.event_ticker = Some("EV".to_string());
    match plan_markets(&p) {
        MarketsRequest::Event(e) => assert_eq!(e, "/events/EV"),
        other => panic!("{other:?}"),
    }
    match plan_markets(&params(None, None)) {
        MarketsRequest::Pages { live, historical } => {
            assert_eq!(live.as_deref(), Some("/markets?limit=200&status=open"));
            assert!(historical.is_none());
        }
        other => panic!("{other:?}"),
    }
    let mut p = params(Some(MarketStatusFilter::All), Some(r#"{"r":"abc","h":"def"}"#));
    p.series_ticker = Some("S".to_string());
    p.limit = Some(5000);
    match plan_markets(&p) {
        MarketsRequest::Pages { live, historical } => {
            assert_eq!(live.as_deref(), Some("/markets?limit=1000&series_ticker=S&cursor=abc"));
            assert_eq!(historical.as_deref(), Some("/historical/markets?limit=1000&series_ticker=S&cursor=def"));
        }
        other => panic!("{other:?}"),
    }
    match plan_markets(&params(Some(MarketStatusFilter::Resolved), Some("garbage"))) {
        MarketsRequest::Pages { live, historical } => {
            assert_eq!(live.as_deref(), Some("/markets?limit=200&status=settled"));
            assert_eq!(historical.as_deref(), Some("/historical/markets?limit=200"));
        }
        other => panic!("{other:?}"),
    }
}

#[test]
fn cursor_state_encodes_and_resumes() {
    let s = CursorState { r: Some("a\"b".to_string()), h: None };
    let text = s.encode().expect("one side left");
    assert_eq!(text, r#"{"r":"a\"b"}"#);
    let back = CursorState::resume(Some(&text), MarketStatusFilter::All);
    assert_eq!(back.r.as_deref(), Some("a\"b"));
    assert!(back.h.is_none());
    assert!(CursorState { r: None, h: None }.encode().is_none());
    let both = CursorState { r: Some("x".to_string()), h: Some("y".to_string()) };
    assert_eq!(both.encode().unwrap(), r#"{"r":"x","h":"y"}"#);
    let fresh = CursorState::resume(Some("[1,2]"), MarketStatusFilter::Active);
    assert_eq!(fresh.r.as_deref(), Some(""));
    assert!(fresh.h.is_none());
}

#[test]
fn pages_filter_and_next_cursor() {
    let live = vec![
        doc(r#"{"ticker":"L1","status":"active"}"#),
        doc(r#"{"ticker":"L2","status":"closed"}"#),
        doc(r#"{"no":"ticker"}"#),
    ];
    let hist = vec![doc(r#"{"ticker":"H1","status":"settled"}"#)];
    let (ms, cursor) = finish_pages(
        Some((live, Some("next".to_string()))),
        Some((hist, Some(String::new()))),
        MarketStatusFilter::All,
    );
    assert_eq!(ms.len(), 3);
    assert_eq!(ms[2].ticker, "H1");
    assert_eq!(cursor.as_deref(), Some(r#"{"r":"next"}"#));
    let (ms, cursor) = finish_pages(None, None, MarketStatusFilter::Active);
    assert!(ms.is_empty());
    assert!(cursor.is_none());
}

#[test]
fn order_parsing() {
    let v = doc(
        r#"{"order_id":"o1","ticker":"KX","action":"SELL","side":"no","status":"Executed","no_price_dollars":"0.3","remaining_count":4,"fill_count_fp":"2.00","created_time":"1970-01-01T00:00:03Z","updated_time":"1970-01-01T00:00:04Z"}"#,
    );
    let o = parse_order(&v, 99);
    assert_eq!(o.id, "o1");
    assert_eq!(o.side, OrderSide::Sell);
    assert_eq!(o.outcome, "No");
    assert_eq!(o.status, OrderStatus::Filled);
    assert!(matches!(o.price, Some(Price::Decimal(ref t)) if t == "0.3"));
    assert_eq!(o.size.as_deref(), Some("4"));
    assert_eq!(o.filled.as_deref(), Some("2.00"));
    assert_eq!(o.created_at, 3000);
    assert_eq!(o.updated_at, Some(4000));
    let empty = parse_order(&doc("[]"), 99);
    assert_eq!(empty.side, OrderSide::Buy);
    assert_eq!(empty.outcome, "Yes");
    assert_eq!(empty.status, OrderStatus::Open);
    assert_eq!(empty.created_at, 99);
    assert_eq!(empty.id, "");
}

#[test]
fn fill_parsing() {
    let v = doc(r#"{"fill_id":"f","market_ticker":"KX","yes_price":45,"count":3,"is_taker":true,"action":"sell"}"#);
    let f = parse_fill(&v, 0).expect("fill");
    assert_eq!(f.market_ticker, "KX");
    assert!(matches!(f.price, Some(Price::Cents(ref t)) if t == "45"));
    assert_eq!(f.size.as_deref(), Some("3"));
    assert!(f.is_taker);
    assert_eq!(f.side, OrderSide::Sell);
    assert!(parse_fill(&doc(r#"{"fill_id":"f"}"#), 0).is_none());
    assert!(parse_fill(&doc(r#"{"ticker":"KX"}"#), 0).is_none());
}

#[test]
fn batch_body_entries() {
    let order = NewOrder {
        market_ticker: "KX".to_string(),
        outcome: "No".to_string(),
        side: OrderSide::Buy,
        price: "0.4000".to_string(),
        size: "2.00".to_string(),
        order_type: OrderType::Ioc,
        post_only: Some(true),
        reduce_only: None,
        client_order_id: Some("c1".to_string()),
        expiration_ts: Some(1_700_000_000),
    };
    let body = batch_create_body(&vec![order]);
    let text = openpx::json::json_text(&body);
    let parsed: serde_json::Value = serde_json::from_str(&text).unwrap();
    let e = &parsed["orders"][0];
    assert_eq!(e["ticker"], "KX");
    assert_eq!(e["side"], "no");
    assert_eq!(e["action"], "buy");
    assert_eq!(e["no_price_dollars"], "0.4000");
    assert!(e.get("yes_price_dollars").is_none());
    assert_eq!(e["count_fp"], "2.00");
    assert_eq!(e["type"], "limit");
    assert_eq!(e["time_in_force"], "immediate_or_cancel");
    assert_eq!(e["post_only"], true);
    assert!(e.get("reduce_only").is_none());
    assert_eq!(e["client_order_id"], "c1");
    assert_eq!(e["expiration_ts"], 1_700_000_000_000i64);
}

#[test]
fn batch_replies() {
    let reply = doc(
        r#"{"orders":[{"order":{"order_id":"a","ticker":"KX","side":"NO","action":"sell","status":"resting","yes_price_dollars":"0.5","initial_count_fp":"3"}},
                       {"error":{"code":"x"},"client_order_id":"c"},
                       {"order":null}]}"#,
    );
    let placed = parse_batch_created(&reply, 1).expect("readable");
    assert_eq!(placed.len(), 1);
    assert_eq!(placed[0].outcome, "No");
    assert_eq!(placed[0].side, OrderSide::Sell);
    assert_eq!(placed[0].status, OrderStatus::Open);
    assert_eq!(placed[0].created_at, 1);
    assert!(parse_batch_created(&doc(r#"{"orders":[{"client_order_id":5}]}"#), 1).is_none());
    assert_eq!(parse_batch_created(&doc("{}"), 1).unwrap().len(), 0);

    let cancel = doc(r#"{"orders":[{"order_id":"a","reduced_by":"2"},{"order_id":"b","error":{}}]}"#);
    let done = cancelled_orders(&cancel, Some("KX"), 8).expect("readable");
    assert_eq!(done.len(), 1);
    assert_eq!(done[0].id, "a");
    assert_eq!(done[0].market_ticker, "KX");
    assert_eq!(done[0].size.as_deref(), Some("2"));
    assert_eq!(done[0].status, OrderStatus::Cancelled);
    assert_eq!(done[0].updated_at, Some(8));
    assert!(cancelled_orders(&doc(r#"{"orders":[{"reduced_by":"2"}]}"#), None, 8).is_none());
    let one = cancelled_order(&doc(r#"{"order_id":"z","reduced_by":"1.5"}"#), 4).expect("reply");
    assert_eq!(one.id, "z");
    assert!(cancelled_order(&doc(r#"{"order_id":"z"}"#), 4).is_none());
}

#[test]
fn cancel_request_pieces() {
    assert_eq!(resting_orders_path(None, None), "/portfolio/orders?status=resting&limit=1000");
    assert_eq!(
        resting_orders_path(Some("KX"), Some("c2")),
        "/portfolio/orders?status=resting&limit=1000&ticker=KX&cursor=c2"
    );
    let page = vec![doc(r#"{"order_id":"a"}"#), doc(r#"{"id":"b"}"#), doc(r#"{"order_id":"c"}"#)];
    let ids = resting_order_ids(&page);
    assert_eq!(ids, vec!["a".to_string(), "c".to_string()]);
    let body = batch_cancel_body(&ids);
    assert_eq!(openpx::json::json_text(&body), r#"{"orders":[{"order_id":"a"},{"order_id":"c"}]}"#);
}

#[test]
fn wire_words() {
    assert_eq!(unified_to_kalshi_tif(OrderType::Gtc), Some("good_till_canceled"));
    assert_eq!(unified_to_kalshi_tif(OrderType::Fok), Some("fill_or_kill"));
    assert_eq!(v2_side(OrderOutcome::Yes, OrderSide::Buy), ("bid", false));
    assert_eq!(v2_side(OrderOutcome::No, OrderSide::Buy), ("ask", true));
    assert_eq!(v2_side(OrderOutcome::No, OrderSide::Sell), ("bid", true));
    assert_eq!(taker_side_outcome(Some("YES")), (Some("buy".to_string()), Some("Yes".to_string())));
    assert_eq!(taker_side_outcome(Some("no")), (Some("sell".to_string()), Some("No".to_string())));
    assert_eq!(taker_side_outcome(Some("maybe")), (None, None));
}

#[test]
fn trade_and_book_requests() {
    assert_eq!(trades_path("KX", None, None, None, None), "/markets/trades?ticker=KX&limit=200");
    assert_eq!(
        trades_path("KX", Some(0), Some(-5), Some(9), Some("c")),
        "/markets/trades?ticker=KX&limit=1&min_ts=-5&max_ts=9&cursor=c"
    );
    assert!(matches!(orderbooks_batch_path(&Vec::new()), Ok(None)));
    let two = vec!["A".to_string(), "B".to_string()];
    assert_eq!(orderbooks_batch_path(&two).unwrap().unwrap(), "/markets/orderbooks?tickers=A&tickers=B");
    let many: Vec<String> = (0..101).map(|i| format!("T{i}")).collect();
    assert!(matches!(orderbooks_batch_path(&many), Err(KalshiError::InvalidOrder(_))));
}

#[test]
fn http_errors() {
    assert!(matches!(status_precheck(429), Some(KalshiError::RateLimited)));
    assert!(status_precheck(500).is_none());
    assert!(matches!(response_error(401, "/x", "denied"), Some(KalshiError::AuthFailed(ref m)) if m == "denied"));
    assert!(matches!(response_error(404, "/markets/KX-1", ""), Some(KalshiError::MarketNotFound(ref m)) if m == "KX-1"));
    assert!(response_error(200, "/x", "{}").is_none());
    let body = r#"{"error":{"code":"insufficient_balance","message":"need more"}}"#;
    assert!(matches!(response_error(400, "/x", body), Some(KalshiError::InsufficientBalance(ref m)) if m == "need more"));
    let body = r#"{"error":{"code":"other"}}"#;
    assert!(matches!(response_error(400, "/x", body), Some(KalshiError::OrderRejected(ref m)) if m == "unknown error"));
    assert!(matches!(response_error(500, "/x", "oops"), Some(KalshiError::Api(ref m)) if m == "oops"));
}

#[test]
fn signing_paths() {
    assert_eq!(
        signing_path("https://api.elections.kalshi.com/trade-api/v2", "/portfolio/balance"),
        "/trade-api/v2/portfolio/balance"
    );
    assert_eq!(signing_path("https://host", "/p"), "/p");
    assert_eq!(signing_path("no-scheme/x", "/p"), "/p");
}

#[test]
fn fetcher_steps() {
    assert!(matches!(status_step(429, 0), StatusStep::Backoff));
    assert!(matches!(status_step(429, 3), StatusStep::ReadBody));
    assert!(matches!(status_step(204, 0), StatusStep::Parse));
    assert!(matches!(body_step("x too_many_requests y", 1), BodyStep::Backoff));
    assert!(matches!(body_step("bad", 1), BodyStep::Fail(KalshiError::Api(ref m)) if m == "bad"));
    assert!(is_last_page(&None, 10, 10));
    assert!(is_last_page(&Some("c".to_string()), 9, 10));
    assert!(!is_last_page(&Some("c".to_string()), 10, 10));
}

#[test]
fn status_cursor_get_after_set() {
    let mut c = StatusCursors::new();
    c.set("open", Some("abc".to_string()));
    assert_eq!(c.get("open"), Some("abc".to_string()));
    c.set("open", None);
    assert_eq!(c.get("open"), None);
}

#[test]
fn outcome_normalization() {
    assert_eq!(normalize_kalshi_outcome(Some(" YES ")), Some("Yes".to_string()));
    assert_eq!(normalize_kalshi_outcome(Some("no")), Some("No".to_string()));
    assert_eq!(normalize_kalshi_outcome(Some("maybe")), None);
    assert_eq!(normalize_kalshi_outcome(None), None);
}

#[test]
fn market_outcomes_and_open_interest() {
    let v = doc(
        r#"{"ticker":"INXD-24DEC31-B5000","yes_sub_title":"S&P 500 above 5000 on Dec 31",
            "no_sub_title":"S&P 500 at or below 5000 on Dec 31","yes_ask":65,"volume":150000.0,
            "open_interest":25000.0,"status":"active"}"#,
    );
    let m = parse_market(&v).expect("market");
    assert_eq!(m.title, "S&P 500 above 5000 on Dec 31 | S&P 500 at or below 5000 on Dec 31");
    assert_eq!(m.outcomes, vec!["Yes".to_string(), "No".to_string()]);
    assert!(matches!(m.yes_price, Some(Price::Cents(ref t)) if t == "65"));
    assert_eq!(m.open_interest.as_deref(), Some("25000.0"));
    assert_eq!(m.volume.as_deref(), Some("150000.0"));
}

#[test]
fn market_yes_price_prefers_ask_then_last_trade() {
    let dollars = doc(
        r#"{"ticker":"DOLLAR-MKT","yes_ask":65,"yes_ask_dollars":"0.72","yes_bid":60,"yes_bid_dollars":"0.68",
            "last_price":63,"last_price_dollars":"0.70","volume":10000.0,"volume_fp":"15000.5","status":"active"}"#,
    );
    let m = parse_market(&dollars).expect("market");
    assert!(matches!(m.yes_price, Some(Price::Decimal(ref t)) if t == "0.72"));
    assert_eq!(m.volume.as_deref(), Some("15000.5"));
    let last_only = doc(r#"{"ticker":"L","last_price_dollars":"0.30"}"#);
    let m = parse_market(&last_only).expect("market");
    assert!(matches!(m.yes_price, Some(Price::Decimal(ref t)) if t == "0.30"));
    let none = doc(r#"{"ticker":"N"}"#);
    let m = parse_market(&none).expect("market");
    assert!(m.yes_price.is_none());
    assert!(m.open_interest.is_none());
    assert_eq!(m.outcomes, vec!["Yes".to_string(), "No".to_string()]);
}

#[test]
fn create_order_refuses_price_outside_unit_interval() {
    let refused = create_order_body(false, "KX", OrderOutcome::Yes, OrderSide::Buy, "1.00", "1.0000", OrderType::Gtc);
    match refused {
        Err(OpenPxError::Exchange(ExchangeError::InvalidOrder(m))) => assert_eq!(m, "price must be in (0, 1)"),
        other => panic!("unexpected {other:?}"),
    }
    let body = create_order_body(true, "KX", OrderOutcome::No, OrderSide::Buy, "2.00", "0.4000", OrderType::Ioc)
        .expect("in range");
    assert_eq!(body.get_str("ticker"), Some("KX"));
    assert_eq!(body.get_str("side"), Some("ask"));
    assert_eq!(body.get_str("price"), Some("0.4000"));
    assert_eq!(body.get_str("count"), Some("2.00"));
    assert_eq!(body.get_str("time_in_force"), Some("immediate_or_cancel"));
}

#[test]
fn resubscribe_all_sends_one_command_per_market() {
    let mut subs = KalshiSubscriptions::new();
    subs.subscribe("A");
    subs.subscribe("B");
    let (markets, commands) = subs.resubscribe_all(true);
    assert_eq!(markets, vec!["A".to_string(), "B".to_string()]);
    assert_eq!(commands.len(), 2);
    let first: serde_json::Value = serde_json::from_str(&commands[0]).unwrap();
    assert_eq!(first["id"], 1);
    assert_eq!(first["cmd"], "subscribe");
    assert_eq!(first["params"]["market_id"], "A");
    assert_eq!(first["params"]["channels"][0], "orderbook_delta");
    assert_eq!(first["params"]["channels"][1], "trade");
    assert_eq!(first["params"]["channels"][2], "fill");
    let second: serde_json::Value = serde_json::from_str(&commands[1]).unwrap();
    assert_eq!(second["id"], 2);
    assert_eq!(second["params"]["market_id"], "B");
    let (again, _) = subs.resubscribe_all(false);
    assert_eq!(again.len(), 2);
    let mut empty = KalshiSubscriptions::new();
    let (none, cmds) = empty.resubscribe_all(false);
    assert!(none.is_empty() && cmds.is_empty());
}

#[test]
fn cursor_state_escapes_controls() {
    let s = CursorState { r: None, h: Some("a\n\u{1}\\/é".to_string()) };
    assert_eq!(s.encode().unwrap(), "{\"h\":\"a\\n\\u0001\\\\/é\"}");
}

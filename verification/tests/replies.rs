use openpx::errors::{ExchangeError, OpenPxError};
use openpx::json::{parse_json, Json};
use openpx::kalshi::error::KalshiError;
use openpx::kalshi::exchange::{describe as kalshi_describe, reply_payload};
use openpx::kalshi::feed::{orderbook_reply, orderbooks_reply};
use openpx::kalshi::portfolio::balance_of;
use openpx::opinion::balance::balance_reply;
use openpx::opinion::config::{describe as opinion_describe, OpinionConfig};
use openpx::opinion::trades::{fills_list, trades_page};

fn doc(text: &str) -> Json {
    parse_json(text).expect("test JSON must parse")
}

fn api_message(r: Result<Option<String>, OpenPxError>) -> String {
    match r {
        Err(OpenPxError::Exchange(ExchangeError::Api(m))) => m,
        other => panic!("unexpected {other:?}"),
    }
}

#[test]
fn opinion_balance_statuses() {
    assert_eq!(api_message(balance_reply(429, "x")), "rate limited");
    assert_eq!(api_message(balance_reply(401, "x")), "authentication required");
    assert_eq!(api_message(balance_reply(403, "x")), "authentication required");
    assert_eq!(api_message(balance_reply(500, "boom")), "boom");
    assert_eq!(api_message(balance_reply(200, "not json")), "error decoding response body");
    assert_eq!(api_message(balance_reply(200, r#"{"msg":"no code"}"#)), "error decoding response body");
}

#[test]
fn opinion_balance_codes_and_values() {
    assert_eq!(api_message(balance_reply(200, r#"{"code":5,"msg":"nope"}"#)), "nope");
    assert_eq!(api_message(balance_reply(200, r#"{"errno":5,"errmsg":null}"#)), "fetch balance failed");
    let ok = balance_reply(
        200,
        r#"{"code":0,"result":{"walletAddress":"0xabc","balances":[{"quoteToken":"USDC","tokenDecimals":18,"availableBalance":"12.5"},{"availableBalance":"3"}]}}"#,
    )
    .expect("balance");
    assert_eq!(ok.as_deref(), Some("12.5"));
    assert_eq!(balance_reply(200, r#"{"code":0,"result":null}"#).expect("none"), None);
    assert_eq!(balance_reply(200, r#"{"code":0,"result":{"balances":[]}}"#).expect("none"), None);
    let bad_item = balance_reply(200, r#"{"code":0,"result":{"balances":[{"tokenDecimals":-1}]}}"#);
    assert_eq!(api_message(bad_item), "error decoding response body");
}

#[test]
fn kalshi_reply_payload_cases() {
    assert!(matches!(reply_payload(429, "/x", ""), Err(KalshiError::RateLimited)));
    assert!(matches!(reply_payload(401, "/x", "denied"), Err(KalshiError::AuthFailed(ref m)) if m == "denied"));
    assert!(matches!(reply_payload(404, "/markets/ABC", ""), Err(KalshiError::MarketNotFound(ref m)) if m == "ABC"));
    assert!(matches!(reply_payload(500, "/x", "oops"), Err(KalshiError::Api(ref m)) if m == "oops"));
    match reply_payload(200, "/x", "{bad") {
        Err(KalshiError::Api(m)) => assert!(m.starts_with("parse error: ") && m.len() > 13),
        other => panic!("unexpected {other:?}"),
    }
    let ok = reply_payload(200, "/x", r#"{"a":1}"#).expect("payload");
    assert!(ok.get("a").is_some());
}

#[test]
fn kalshi_balance_fields() {
    assert_eq!(balance_of(&doc(r#"{"balance":12345,"portfolio_value":500}"#)), Some((12345, Some(500))));
    assert_eq!(balance_of(&doc(r#"{"balance":-20}"#)), Some((-20, None)));
    assert_eq!(balance_of(&doc(r#"{"balance":1,"portfolio_value":null}"#)), Some((1, None)));
    assert_eq!(balance_of(&doc(r#"{"balance":1.5}"#)), None);
    assert_eq!(balance_of(&doc(r#"{"portfolio_value":1}"#)), None);
    assert_eq!(balance_of(&doc(r#"[1]"#)), None);
}

#[test]
fn kalshi_orderbook_replies() {
    let (yes, no) = orderbook_reply(&doc(r#"{"orderbook_fp":{"yes_dollars":[["0.40","10"]],"no":null}}"#))
        .expect("book");
    assert_eq!(yes, vec![("0.40".to_string(), "10".to_string())]);
    assert!(no.is_empty());
    assert!(orderbook_reply(&doc(r#"{"other":{}}"#)).is_none());
    assert!(orderbook_reply(&doc(r#"{"orderbook":{"yes":[["0.4"]]}}"#)).is_none());
    let books = orderbooks_reply(&doc(
        r#"{"orderbooks":[{"ticker":"A","orderbook_fp":{"no_dollars":[["0.30","2"]]}},{"ticker":"B"}]}"#,
    ))
    .expect("books");
    assert_eq!(books.len(), 2);
    assert_eq!(books[0].0, "A");
    let (y, n) = books[0].1.clone().expect("sides");
    assert!(y.is_empty());
    assert_eq!(n, vec![("0.30".to_string(), "2".to_string())]);
    assert!(books[1].1.is_none());
    assert!(orderbooks_reply(&doc(r#"{}"#)).expect("none").is_empty());
    assert!(orderbooks_reply(&doc(r#"{"orderbooks":[{"orderbook":{}}]}"#)).is_none());
}

#[test]
fn opinion_trades_page_drops_sizes_at_or_below_zero() {
    let rows = match doc(
        r#"[{"price":"0.5","shares":"2","trade_id":"t1","market_id":"9"},
            {"price":"0.5","shares":"0","trade_id":"t2"},
            {"price":"0.5","trade_id":"t3"},
            {"price":"0.5","amount":3,"trade_id":"t4","market_id":"8"},
            {"price":"0.6","amount":"1.5","trade_id":"t5"}]"#,
    ) {
        Json::Array(a) => a,
        _ => unreachable!(),
    };
    let (trades, cursor) = trades_page(&rows, "", 5, 1, 7);
    let ids: Vec<_> = trades.iter().map(|t| t.id.clone().unwrap()).collect();
    assert_eq!(ids, vec!["t1", "t4", "t5"]);
    assert_eq!(cursor.as_deref(), Some("2"));
    let (in_market, cursor) = trades_page(&rows, "9", 20, 1, 7);
    let ids: Vec<_> = in_market.iter().map(|t| t.id.clone().unwrap()).collect();
    assert_eq!(ids, vec!["t1", "t5"]);
    assert!(cursor.is_none());
    let fills = fills_list(&rows, None, 2, 7);
    let ids: Vec<_> = fills.iter().map(|f| f.fill_id.clone()).collect();
    assert_eq!(ids, vec!["t1", "t4"]);
    let fills = fills_list(&rows, Some("8"), 10, 7);
    assert_eq!(fills.len(), 1);
    assert_eq!(fills[0].fill_id, "t4");
}

#[test]
fn test_describe_unauthenticated() {
    let info = kalshi_describe(false, false, false);
    assert_eq!(info.id, "kalshi");
    assert_eq!(info.name, "Kalshi");
    assert!(info.has_fetch_markets);
    assert!(info.has_fetch_trades);
    assert!(info.has_fetch_price_history);
    assert!(info.has_fetch_orderbook);
    assert!(info.has_fetch_positions);
    assert!(info.has_fetch_balance);
    assert!(info.has_fetch_fills);
    assert!(!info.has_create_order, "should not have create_order without auth");
    assert!(!info.has_cancel_order, "should not have cancel_order without auth");
    assert!(!info.has_websocket, "should not have websocket without auth");
    assert!(!info.has_fetch_user_activity);
    assert!(!info.has_approvals);
}

#[test]
fn test_exchange_describe_capabilities() {
    let config = OpinionConfig::new();
    let info = opinion_describe(&config);
    assert!(info.has_fetch_markets);
    assert!(!info.has_create_order);
    assert!(!info.has_cancel_order);
    assert!(!info.has_websocket);
    assert!(info.has_fetch_positions);
    assert!(info.has_fetch_balance);
    assert!(info.has_fetch_orderbook);
    let auth_config = OpinionConfig::new().with_api_key("my-key");
    let auth_info = opinion_describe(&auth_config);
    assert!(auth_info.has_create_order);
    assert!(auth_info.has_cancel_order);
    assert!(auth_info.has_websocket);
}

use openpx::limitless::http::{order_url, slug_url};
use openpx::limitless::error::LimitlessError;
use openpx::limitless::http::{login_failed, post_order_error, status_error, verify_auth_result};
use openpx::limitless::http::{hex_prefixed, message_header, signing_message};
use openpx::limitless::http::listed_items;
use openpx::json::{parse_json, Json};
use openpx::limitless::clob::{order_amounts, order_salt, LimitlessOrderType, LimitlessSide, TokenRegistry};
use openpx::limitless::config::LimitlessConfig;
use openpx::limitless::ws::{book_levels, LimitlessSubscriptions};

fn doc(text: &str) -> Json {
    parse_json(text).expect("test JSON must parse")
}

#[test]
fn wire_codes() {
    assert_eq!(LimitlessSide::Buy.as_u8(), 0);
    assert_eq!(LimitlessSide::Sell.as_u8(), 1);
    assert_eq!(LimitlessOrderType::Gtc.as_str(), "GTC");
    assert_eq!(LimitlessOrderType::Fok.as_str(), "FOK");
    assert_eq!(LimitlessOrderType::default_type(), LimitlessOrderType::Gtc);
}

#[test]
fn order_amounts_round_by_side() {
    // 10.0005 shares at 0.333 -> shares aligned to 10.000, collateral 3.33
    assert_eq!(order_amounts(LimitlessSide::Buy, 10_000_500, 333_000), (3_330_000, 10_000_000));
    assert_eq!(order_amounts(LimitlessSide::Sell, 10_000_500, 333_000), (10_000_000, 3_330_000));
    // a fractional collateral rounds up for a buy and down for a sell
    assert_eq!(order_amounts(LimitlessSide::Buy, 1_000, 333_333), (334, 1_000));
    assert_eq!(order_amounts(LimitlessSide::Sell, 1_000, 333_333), (1_000, 333));
    assert_eq!(order_amounts(LimitlessSide::Buy, 999, 500_000), (0, 0));
}

#[test]
fn order_salt_formula() {
    assert_eq!(order_salt(1_700_000_000_123), 1_700_000_000_123 * 1000 + 123 + 86_400_000);
}

#[test]
fn token_registry_lookups() {
    let mut r = TokenRegistry::new();
    assert!(r.get_slug_for_token("1").is_none());
    r.register_token_mapping("1", "market-a", false);
    r.register_token_mapping("2", "market-a", true);
    r.register_token_mapping("1", "market-b", false);
    assert_eq!(r.get_slug_for_token("1"), Some("market-b"));
    assert_eq!(r.get_slug_for_token("2"), Some("market-a"));
    assert!(r.is_no_token("2"));
    assert!(!r.is_no_token("1"));
}

#[test]
fn config_builders() {
    let c = LimitlessConfig::new().with_private_key("pk").with_ws_url("wss://x").with_verbose(true);
    assert!(c.is_authenticated());
    assert_eq!(c.ws_url, "wss://x");
    assert_eq!(c.api_url, "https://api.limitless.exchange");
    assert_eq!(c.chain_id, 8453);
    assert!(c.base.verbose);
    assert!(!LimitlessConfig::new().with_api_key("k").is_authenticated());
}

#[test]
fn subscription_payload() {
    let none = LimitlessSubscriptions { slugs: Vec::new(), addresses: Vec::new() };
    assert!(none.payload().is_none());
    let subs = LimitlessSubscriptions { slugs: vec!["s1".to_string()], addresses: Vec::new() };
    let p = subs.payload().unwrap();
    assert_eq!(openpx::json::json_text(&p), r#"{"marketSlugs":["s1"]}"#);
    let both = LimitlessSubscriptions { slugs: vec!["s".to_string()], addresses: vec!["0xa".to_string()] };
    assert_eq!(openpx::json::json_text(&both.payload().unwrap()), r#"{"marketAddresses":["0xa"],"marketSlugs":["s"]}"#);
}

#[test]
fn book_levels_prefer_nested_book() {
    let v = doc(r#"{"slug":"m","orderbook":{"bids":[{"price":"0.4","size":"1"}]},"asks":[{"price":0.6,"size":2}]}"#);
    let b = book_levels(&v).expect("market");
    assert_eq!(b.market, "m");
    assert_eq!(b.bids.map(|v| v.len()), Some(1));
    assert!(b.asks.is_none());
    let flat = doc(r#"{"marketSlug":"n","asks":[{"price":0.6,"size":2}]}"#);
    let b = book_levels(&flat).expect("market");
    assert_eq!(b.asks.map(|v| v.len()), Some(1));
    assert!(book_levels(&doc(r#"{"bids":[]}"#)).is_none());
}

#[test]
fn clob_request_urls() {
    assert_eq!(slug_url("https://api.limitless.exchange", "/orders", None), "https://api.limitless.exchange/orders");
    assert_eq!(
        slug_url("https://h", "/portfolio/positions", Some("btc-100k")),
        "https://h/portfolio/positions?marketSlug=btc-100k"
    );
    assert_eq!(order_url("https://h", "o-1"), "https://h/orders/o-1");
}

#[test]
fn clob_response_errors() {
    assert!(status_error(200, "get orders", "").is_none());
    match status_error(500, "get orders", "boom") {
        Some(LimitlessError::Api(m)) => assert_eq!(m, "get orders failed: boom"),
        other => panic!("unexpected {:?}", other),
    }
    assert!(matches!(post_order_error(429, "slow"), Some(LimitlessError::RateLimited)));
    match post_order_error(400, "bad") {
        Some(LimitlessError::Api(m)) => assert_eq!(m, "post order failed: bad"),
        other => panic!("unexpected {:?}", other),
    }
    assert!(post_order_error(201, "").is_none());
    assert_eq!(verify_auth_result(200, "0xabc").unwrap(), "0xabc");
    match verify_auth_result(401, "") {
        Err(LimitlessError::Auth(m)) => assert_eq!(m, "not authenticated"),
        other => panic!("unexpected {:?}", other),
    }
    match verify_auth_result(503, "down") {
        Err(LimitlessError::Api(m)) => assert_eq!(m, "verify-auth failed (503): down"),
        other => panic!("unexpected {:?}", other),
    }
    match login_failed(403, "nope") {
        LimitlessError::Auth(m) => assert_eq!(m, "login failed (403): nope"),
        other => panic!("unexpected {:?}", other),
    }
}

#[test]
fn login_headers() {
    assert_eq!(signing_message("  Sign in: 42\n").unwrap(), "Sign in: 42");
    match signing_message(" \t\n") {
        Err(LimitlessError::Auth(m)) => assert_eq!(m, "empty signing message"),
        other => panic!("unexpected {:?}", other),
    }
    assert_eq!(hex_prefixed(&[0x00, 0x0f, 0xa0, 0xff]), "0x000fa0ff");
    assert_eq!(hex_prefixed(&[]), "0x");
    assert_eq!(message_header("Hi é"), "0x486920c3a9");
}

#[test]
fn listing_replies() {
    let wrapped = parse_json(r#"{"data":[1,2,3]}"#).unwrap();
    assert_eq!(listed_items(&wrapped).map(|v| v.len()), Some(3));
    let bare = parse_json(r#"[{"id":"a"}]"#).unwrap();
    assert_eq!(listed_items(&bare).map(|v| v.len()), Some(1));
    let other = parse_json(r#"{"data":{"id":"a"}}"#).unwrap();
    assert!(listed_items(&other).is_none());
}

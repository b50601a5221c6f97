use openpx::errors::{ExchangeError, OpenPxError};
use openpx::json::{json_text, parse_json, Json};
use openpx::models::{OrderSide, OrderStatus, Price};
use openpx::opinion::api::{http_error, read_envelope, OpinionError};
use openpx::opinion::book::{book_entries, orderbook_endpoint, outcome_token};
use openpx::opinion::config::OpinionConfig;
use openpx::opinion::history::{history_endpoint, price_history};
use openpx::opinion::lookup::{
    binary_lookup, binary_market_endpoint, categorical_market_endpoint, categorical_result, BinaryLookup,
};
use openpx::opinion::trading::{
    cancel_body, cancelled_order, create_order_body, order_type_word, placed_order, placed_order_id,
};

fn doc(text: &str) -> Json {
    parse_json(text).expect("test JSON must parse")
}

fn strings(v: &[&str]) -> Vec<String> {
    v.iter().map(|s| s.to_string()).collect()
}

fn invalid_input(r: Result<String, OpenPxError>) -> String {
    match r {
        Err(OpenPxError::InvalidInput(m)) => m,
        other => panic!("expected an invalid input, got {:?}", other),
    }
}

#[test]
fn http_status_errors() {
    assert!(matches!(http_error(429, "x"), Some(OpinionError::RateLimited)));
    assert!(matches!(http_error(401, "x"), Some(OpinionError::AuthRequired)));
    assert!(matches!(http_error(403, "x"), Some(OpinionError::AuthRequired)));
    match http_error(500, "boom") {
        Some(OpinionError::Api(m)) => assert_eq!(m, "boom"),
        other => panic!("unexpected {:?}", other),
    }
    assert!(http_error(200, "ok").is_none());
    assert!(http_error(204, "").is_none());
}

#[test]
fn envelope_reading() {
    let j = doc(r#"{"errno":0,"errmsg":null,"result":{"data":{"order_id":"o-1"},"list":[1,2]}}"#);
    let env = read_envelope(&j).expect("an envelope");
    assert_eq!(env.code, 0);
    assert!(env.msg.is_none());
    assert!(env.data.is_some());
    assert_eq!(env.list.map(|l| l.len()), Some(2));
    assert!(env.check("unused").is_ok());

    let bad = doc(r#"{"code":7,"msg":"nope"}"#);
    let env = read_envelope(&bad).expect("an envelope");
    match env.check("default") {
        Err(OpinionError::Api(m)) => assert_eq!(m, "nope"),
        other => panic!("unexpected {:?}", other),
    }
    let silent = doc(r#"{"code":3}"#);
    match read_envelope(&silent).unwrap().check("fallback") {
        Err(OpinionError::Api(m)) => assert_eq!(m, "fallback"),
        other => panic!("unexpected {:?}", other),
    }
    // Both aliases at once, or no code at all, are no envelope.
    assert!(read_envelope(&doc(r#"{"code":0,"errno":0}"#)).is_none());
    assert!(read_envelope(&doc(r#"{"msg":"x"}"#)).is_none());
    assert!(read_envelope(&doc(r#"[1]"#)).is_none());
}

#[test]
fn price_history_requests_and_points() {
    assert_eq!(
        history_endpoint("tok", "1h", Some(10), Some(-5)),
        "/openapi/token/price-history?token_id=tok&interval=1h&start_at=10&end_at=-5"
    );
    assert_eq!(history_endpoint("t", "1d", None, None), "/openapi/token/price-history?token_id=t&interval=1d");

    let j = doc(
        r#"{"code":0,"result":{"list":[
            {"timestamp":200,"price":"0.5"},
            {"t":100,"p":0.25},
            {"timestamp":100,"price":"0.75"},
            {"timestamp":"bad","price":"0.1"},
            {"timestamp":300}
        ]}}"#,
    );
    let env = read_envelope(&j).unwrap();
    let points = price_history(&env).expect("points");
    let seen: Vec<(i64, String, usize)> = points.iter().map(|p| (p.timestamp_ms, p.price.clone(), p.source)).collect();
    assert_eq!(
        seen,
        vec![(100_000, "0.25".to_string(), 1), (100_000, "0.75".to_string(), 2), (200_000, "0.5".to_string(), 0)]
    );

    let failed = doc(r#"{"code":1}"#);
    match price_history(&read_envelope(&failed).unwrap()) {
        Err(OpinionError::Api(m)) => assert_eq!(m, "fetch price history failed"),
        other => panic!("unexpected {:?}", other.map(|v| v.len())),
    }
}

#[test]
fn order_types() {
    assert_eq!(order_type_word(None).unwrap(), "LIMIT");
    assert_eq!(order_type_word(Some("gtc")).unwrap(), "LIMIT");
    assert_eq!(order_type_word(Some("ioc")).unwrap(), "MARKET_ORDER");
    assert_eq!(order_type_word(Some("fok")).unwrap(), "MARKET_ORDER");
    match order_type_word(Some("GTC")) {
        Err(OpenPxError::Exchange(ExchangeError::InvalidOrder(m))) => {
            assert_eq!(m, "invalid order_type 'GTC' (allowed: gtc, ioc, fok)")
        },
        other => panic!("unexpected {:?}", other),
    }
}

#[test]
fn order_request_bodies() {
    let anon = OpinionConfig::new();
    match create_order_body(&anon, "12", Some("tok"), OrderSide::Buy, true, "0.5", "10", None) {
        Err(OpenPxError::Exchange(ExchangeError::Authentication(m))) => assert_eq!(m, "authentication required"),
        other => panic!("unexpected {:?}", other),
    }
    let config = OpinionConfig::new().with_api_key("k");
    match create_order_body(&config, "12", None, OrderSide::Buy, false, "0.5", "10", Some("bad")) {
        Err(OpenPxError::Exchange(ExchangeError::InvalidOrder(m))) => assert_eq!(m, "token_id required in params"),
        other => panic!("unexpected {:?}", other),
    }
    match create_order_body(&config, "12", Some("tok"), OrderSide::Buy, false, "1.5", "10", Some("bad")) {
        Err(OpenPxError::Exchange(ExchangeError::InvalidOrder(m))) => assert_eq!(m, "Price must be between 0 and 1"),
        other => panic!("unexpected {:?}", other),
    }
    match create_order_body(&config, "12", Some("tok"), OrderSide::Buy, true, "0.5", "10", Some("day")) {
        Err(OpenPxError::Exchange(ExchangeError::InvalidOrder(m))) => {
            assert_eq!(m, "invalid order_type 'day' (allowed: gtc, ioc, fok)")
        },
        other => panic!("unexpected {:?}", other),
    }
    let body = create_order_body(&config, "12", Some("tok"), OrderSide::Sell, true, "0.5", "10", Some("ioc")).unwrap();
    assert_eq!(
        json_text(&body),
        r#"{"chain_id":56,"market_id":12,"order_type":"MARKET_ORDER","price":"0.5","side":2,"size":"10","token_id":"tok"}"#
    );
    let body = create_order_body(&config, "abc", Some("tok"), OrderSide::Buy, true, "0.1", "1", None).unwrap();
    assert_eq!(
        json_text(&body),
        r#"{"chain_id":56,"market_id":0,"order_type":"LIMIT","price":"0.1","side":1,"size":"1","token_id":"tok"}"#
    );
}

#[test]
fn order_replies() {
    let ok = doc(r#"{"code":0,"result":{"data":{"order_id":"o-9"}}}"#);
    assert_eq!(placed_order_id(&read_envelope(&ok).unwrap()).unwrap(), "o-9");
    let bare = doc(r#"{"code":0}"#);
    assert_eq!(placed_order_id(&read_envelope(&bare).unwrap()).unwrap(), "");
    let rejected = doc(r#"{"code":5}"#);
    match placed_order_id(&read_envelope(&rejected).unwrap()) {
        Err(OpenPxError::Exchange(ExchangeError::OrderRejected(m))) => assert_eq!(m, "order failed"),
        other => panic!("unexpected {:?}", other),
    }
    let with_msg = doc(r#"{"code":5,"msg":"too small"}"#);
    match placed_order_id(&read_envelope(&with_msg).unwrap()) {
        Err(OpenPxError::Exchange(ExchangeError::OrderRejected(m))) => assert_eq!(m, "too small"),
        other => panic!("unexpected {:?}", other),
    }

    let o = placed_order("o-9".to_string(), "12", "Yes", OrderSide::Buy, "0.5", "10", 1_000);
    assert_eq!(o.id, "o-9");
    assert_eq!(o.market_ticker, "12");
    assert_eq!(o.outcome, "Yes");
    assert!(matches!(o.price, Some(Price::Decimal(ref p)) if p == "0.5"));
    assert_eq!(o.size.as_deref(), Some("10"));
    assert_eq!(o.status, OrderStatus::Open);
    assert_eq!(o.created_at, 1_000);
}

#[test]
fn cancel_requests_and_replies() {
    assert!(cancel_body(&OpinionConfig::new(), "o-1").is_err());
    let config = OpinionConfig::new().with_api_key("k");
    assert_eq!(json_text(&cancel_body(&config, "o-1").unwrap()), r#"{"chain_id":56,"order_id":"o-1"}"#);

    let ok = doc(r#"{"code":0}"#);
    let o = cancelled_order(&read_envelope(&ok).unwrap(), "o-1", Some("12"), 5).unwrap();
    assert_eq!(o.id, "o-1");
    assert_eq!(o.market_ticker, "12");
    assert_eq!(o.status, OrderStatus::Cancelled);
    assert_eq!(o.updated_at, Some(5));
    let o = cancelled_order(&read_envelope(&ok).unwrap(), "o-1", None, 5).unwrap();
    assert_eq!(o.market_ticker, "");

    let failed = doc(r#"{"code":2}"#);
    match cancelled_order(&read_envelope(&failed).unwrap(), "o-1", None, 5) {
        Err(OpenPxError::Exchange(ExchangeError::Api(m))) => assert_eq!(m, "cancel failed"),
        other => panic!("unexpected {:?}", other),
    }
}

#[test]
fn orderbook_tokens() {
    let tokens = strings(&["t-yes", "t-no"]);
    let yes_no = strings(&["YES", "No"]);
    assert_eq!(outcome_token(&tokens, &yes_no, None).unwrap(), "t-yes");
    assert_eq!(outcome_token(&tokens, &yes_no, Some("no")).unwrap(), "t-no");
    assert_eq!(outcome_token(&tokens, &yes_no, Some("1")).unwrap(), "t-no");
    assert_eq!(outcome_token(&tokens, &yes_no, Some("+0")).unwrap(), "t-yes");
    assert_eq!(invalid_input(outcome_token(&tokens, &yes_no, Some("  "))), "invalid outcome");
    assert_eq!(invalid_input(outcome_token(&tokens, &yes_no, Some("maybe"))), "invalid outcome");
    assert_eq!(invalid_input(outcome_token(&tokens, &yes_no, Some("2"))), "token not found for outcome");
    assert_eq!(invalid_input(outcome_token(&Vec::new(), &yes_no, None)), "no token IDs found for market");

    let three = strings(&["a", "b", "c"]);
    let labels = strings(&["Red", "Blue", "blue"]);
    assert_eq!(
        invalid_input(outcome_token(&three, &labels, None)),
        "outcome required for non-binary markets"
    );
    assert_eq!(outcome_token(&three, &labels, Some("BLUE")).unwrap(), "b");
}

#[test]
fn orderbook_requests_and_levels() {
    assert_eq!(orderbook_endpoint("t1"), "/openapi/token/orderbook?token_id=t1");
    let data = doc(r#"{"bids":[{"price":"0.4","size":10},{"price":"x","size":"3"},7],"asks":{}}"#);
    let bids = book_entries(&data, "bids");
    assert_eq!(bids.len(), 3);
    assert_eq!(bids[0].price.as_deref(), Some("0.4"));
    assert_eq!(bids[0].size.as_deref(), Some("10"));
    assert_eq!(bids[1].price, None);
    assert_eq!(bids[1].size.as_deref(), Some("3"));
    assert_eq!(bids[2].price, None);
    assert_eq!(bids[2].size, None);
    assert!(book_entries(&data, "asks").is_empty());
    assert!(book_entries(&data, "missing").is_empty());
}

#[test]
fn market_lookup_steps() {
    assert_eq!(binary_market_endpoint("42"), "/openapi/market/42");
    assert_eq!(categorical_market_endpoint("42"), "/openapi/market/categorical/42");

    let found = doc(r#"{"code":0,"result":{"data":{"marketId":42,"marketTitle":"Rain?"}}}"#);
    match binary_lookup(Ok(&read_envelope(&found).unwrap()), 56) {
        BinaryLookup::Found(m) => assert_eq!(m.id, "42"),
        _ => panic!("expected a market"),
    }
    let no_id = doc(r#"{"code":0,"result":{"data":{"title":"?"}}}"#);
    assert!(matches!(binary_lookup(Ok(&read_envelope(&no_id).unwrap()), 56), BinaryLookup::Categorical));
    let failed = doc(r#"{"code":9}"#);
    assert!(matches!(binary_lookup(Ok(&read_envelope(&failed).unwrap()), 56), BinaryLookup::Categorical));
    assert!(matches!(binary_lookup(Err(&OpinionError::RateLimited), 56), BinaryLookup::Fail(OpinionError::RateLimited)));
    assert!(matches!(
        binary_lookup(Err(&OpinionError::AuthRequired), 56),
        BinaryLookup::Fail(OpinionError::AuthRequired)
    ));
    assert!(matches!(binary_lookup(Err(&OpinionError::Api("x".into())), 56), BinaryLookup::Categorical));

    let m = categorical_result(&read_envelope(&found).unwrap(), "42", 56).unwrap();
    assert_eq!(m.id, "42");
    match categorical_result(&read_envelope(&failed).unwrap(), "42", 56) {
        Err(OpenPxError::Exchange(ExchangeError::MarketNotFound(id))) => assert_eq!(id, "42"),
        _ => panic!("expected not found"),
    }
}

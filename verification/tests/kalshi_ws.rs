use openpx::events::WebSocketError;
use openpx::kalshi::ws_endpoint::ws_endpoint;
use openpx::events::LiquidityRole;
use openpx::json::{parse_json, Json};
use openpx::kalshi::feed::{
    delta_message, fill_message, liquidity_role_of, message_kind, snapshot_message, trade_message,
    MessageKind,
};
use openpx::kalshi::ws::{raw_to_ms, value_to_ts_ms};
use openpx::events::BookSide;

fn doc(text: &str) -> Json {
    parse_json(text).expect("test JSON must parse")
}

#[test]
fn value_to_ts_ms_parses_seconds_epoch() {
    let v = doc("1770241151");
    let ts = value_to_ts_ms(Some(&v)).expect("timestamp should parse");
    assert_eq!(ts, 1_770_241_151_000_u64);
}

#[test]
fn value_to_ts_ms_parses_rfc3339_string() {
    let v = doc(r#""2026-02-05T18:19:11Z""#);
    let ts = value_to_ts_ms(Some(&v)).expect("timestamp should parse");
    assert_eq!(ts, 1_770_315_551_000_u64);
}

#[test]
fn value_to_ts_ms_passes_millis_through() {
    let v = doc("1770241151000");
    let ts = value_to_ts_ms(Some(&v)).expect("timestamp should parse");
    assert_eq!(ts, 1_770_241_151_000_u64);
}

#[test]
fn fill_is_taker_true_yields_taker() {
    let msg = doc(r#"{ "is_taker": true }"#);
    assert_eq!(liquidity_role_of(&msg), Some(LiquidityRole::Taker));
}

#[test]
fn fill_is_taker_false_yields_maker() {
    let msg = doc(r#"{ "is_taker": false }"#);
    assert_eq!(liquidity_role_of(&msg), Some(LiquidityRole::Maker));
}

#[test]
fn fill_is_taker_absent_yields_none() {
    let msg = doc(r#"{ "market_id": "SOME-TICKER" }"#);
    assert_eq!(liquidity_role_of(&msg), None);
}

#[test]
fn raw_timestamps_below_a_trillion_are_seconds() {
    assert_eq!(raw_to_ms(5), Some(5000));
    assert_eq!(raw_to_ms(1_000_000_000_000), Some(1_000_000_000_000));
    assert_eq!(raw_to_ms(-1), None);
}

#[test]
fn string_seconds_are_read_too() {
    let v = doc(r#""1770241151""#);
    assert_eq!(value_to_ts_ms(Some(&v)), Some(1_770_241_151_000));
    let bad = doc(r#""not a time""#);
    assert_eq!(value_to_ts_ms(Some(&bad)), None);
    assert_eq!(value_to_ts_ms(None), None);
}

#[test]
fn messages_are_classified_by_type() {
    assert_eq!(message_kind(&doc(r#"{"type":"orderbook_delta"}"#)), MessageKind::Delta);
    assert_eq!(message_kind(&doc(r#"{"type":"fill"}"#)), MessageKind::Fill);
    assert_eq!(message_kind(&doc(r#"{"type":"ticker"}"#)), MessageKind::Other);
    assert_eq!(message_kind(&doc(r#"{"kind":"trade"}"#)), MessageKind::Other);
}

#[test]
fn trade_message_reads_body() {
    let v = doc(
        r#"{"type":"trade","msg":{"market_id":"KX-1","yes_price_dollars":"0.42","count_fp":"10.00","taker_side":"yes","trade_id":"t1","ts":1700000000}}"#,
    );
    let t = trade_message(&v).expect("trade");
    assert_eq!(t.market_id, "KX-1");
    assert_eq!(t.asset_id, "KX-1");
    assert_eq!(t.price, "0.42");
    assert_eq!(t.size.as_deref(), Some("10.00"));
    assert_eq!(t.aggressor_side.as_deref(), Some("yes"));
    assert_eq!(t.trade_id.as_deref(), Some("t1"));
    assert_eq!(t.exchange_ts_ms, Some(1_700_000_000_000));
    assert_eq!(t.source_channel, "kalshi_public_trade");
    let missing_size = doc(r#"{"msg":{"market_id":"KX-1","yes_price_dollars":"0.42"}}"#);
    assert!(trade_message(&missing_size).is_none());
}

#[test]
fn fill_message_reads_role_and_ids() {
    let v = doc(
        r#"{"type":"fill","msg":{"market_id":"KX-2","yes_price_dollars":0.5,"count_fp":"3","action":"buy","side":"no","trade_id":7,"order_id":"o-9","is_taker":true}}"#,
    );
    let f = fill_message(&v).expect("fill");
    assert_eq!(f.market_id, "KX-2");
    assert_eq!(f.price, "0.5");
    assert_eq!(f.fill_id.as_deref(), Some("7"));
    assert_eq!(f.order_id.as_deref(), Some("o-9"));
    assert_eq!(f.side.as_deref(), Some("buy"));
    assert_eq!(f.outcome.as_deref(), Some("no"));
    assert_eq!(f.liquidity_role, Some(LiquidityRole::Taker));
    assert_eq!(f.source_channel, "kalshi_user_fill");
}

#[test]
fn delta_sides_and_complement() {
    let yes = doc(
        r#"{"type":"orderbook_delta","msg":{"market_ticker":"KX","market_id":"id","price_dollars":"0.40","delta_fp":"5","side":"YES"}}"#,
    );
    let d = delta_message(&yes).expect("delta");
    assert_eq!(d.side, BookSide::Bid);
    assert!(!d.complement);
    let no = doc(
        r#"{"msg":{"market_ticker":"KX","market_id":"id","price_dollars":"0.40","delta_fp":"-5","side":"no","ts":"1970-01-01T00:00:02Z"}}"#,
    );
    let d = delta_message(&no).expect("delta");
    assert_eq!(d.side, BookSide::Ask);
    assert!(d.complement);
    assert_eq!(d.ts_ms, Some(2000));
    let bad_price = doc(
        r#"{"msg":{"market_ticker":"KX","market_id":"id","price_dollars":"abc","delta_fp":"5","side":"yes"}}"#,
    );
    assert!(delta_message(&bad_price).is_none());
}

#[test]
fn snapshot_reads_level_pairs() {
    let v = doc(
        r#"{"type":"orderbook_snapshot","seq":3,"msg":{"market_ticker":"KX","market_id":"id","yes_dollars_fp":[["0.40","10"],["0.41","2"]]}}"#,
    );
    let s = snapshot_message(&v).expect("snapshot");
    assert_eq!(s.market_ticker, "KX");
    assert_eq!(s.yes.len(), 2);
    assert_eq!(s.yes[1], ("0.41".to_string(), "2".to_string()));
    assert!(s.no.is_empty());
    assert_eq!(s.seq, Some(3));
    let bad = doc(
        r#"{"msg":{"market_ticker":"KX","market_id":"id","yes_dollars_fp":[["0.40"]]}}"#,
    );
    assert!(snapshot_message(&bad).is_none());
}

#[test]
fn websocket_endpoint_from_api_url() {
    assert_eq!(
        ws_endpoint("https://api.elections.kalshi.com/trade-api/v2").unwrap(),
        "wss://api.elections.kalshi.com/trade-api/ws/v2"
    );
    assert_eq!(ws_endpoint("http://localhost:8080/x").unwrap(), "ws://localhost:8080/trade-api/ws/v2");
    assert_eq!(ws_endpoint("https://Demo.Example:443/").unwrap(), "wss://demo.example/trade-api/ws/v2");
    match ws_endpoint("unix:/run/socket") {
        Err(WebSocketError::Connection(m)) => assert_eq!(m, "missing host"),
        other => panic!("unexpected {:?}", other),
    }
    match ws_endpoint("not a url") {
        Err(WebSocketError::Connection(m)) => assert_eq!(m, "relative URL without a base"),
        other => panic!("unexpected {:?}", other),
    }
}

#[test]
fn fill_at_or_below_zero_is_dropped() {
    let zero_price = doc(r#"{"msg":{"market_id":"KX","yes_price_dollars":"0","count_fp":"3"}}"#);
    assert!(fill_message(&zero_price).is_none());
    let zero_size = doc(r#"{"msg":{"market_id":"KX","yes_price_dollars":"0.5","count_fp":"0.00"}}"#);
    assert!(fill_message(&zero_size).is_none());
    let negative = doc(r#"{"msg":{"market_id":"KX","yes_price_dollars":-0.5,"count_fp":"3"}}"#);
    assert!(fill_message(&negative).is_none());
    let zero_number = doc(r#"{"msg":{"market_id":"KX","yes_price_dollars":0,"count_fp":"3"}}"#);
    assert!(fill_message(&zero_number).is_none());
    let exponent_zero = doc(r#"{"msg":{"market_id":"KX","yes_price_dollars":"0e5","count_fp":"3"}}"#);
    assert!(fill_message(&exponent_zero).is_none());
    let kept = doc(r#"{"msg":{"market_id":"KX","yes_price_dollars":"0.01","count_fp":"1e0"}}"#);
    let f = fill_message(&kept).expect("positive fill");
    assert_eq!(f.price, "0.01");
    assert_eq!(f.size.as_deref(), Some("1e0"));
    let missing_size = doc(r#"{"msg":{"market_id":"KX","yes_price_dollars":"0.5"}}"#);
    assert!(fill_message(&missing_size).is_none());
}

#[test]
fn trade_with_zero_price_is_still_read() {
    let v = doc(r#"{"msg":{"market_id":"KX","yes_price_dollars":"0","count_fp":"3"}}"#);
    let t = trade_message(&v).expect("trade");
    assert_eq!(t.price, "0");
}

#[test]
fn connect_needs_key_and_signer() {
    assert!(openpx::kalshi::ws::check_credentials(true, true).is_ok());
    for (k, s) in [(false, true), (true, false), (false, false)] {
        match openpx::kalshi::ws::check_credentials(k, s) {
            Err(WebSocketError::Connection(m)) => assert_eq!(m, "authentication required"),
            other => panic!("unexpected {other:?}"),
        }
    }
}

use openpx::crypto::{
    build_subscribe_msg, build_unsubscribe_msg, decode_price, source_from_topic,
    topic_for_source, CryptoPriceSource, CryptoSubscriptions,
};

#[test]
fn deserialize_binance_envelope() {
    let data = r#"{
        "topic": "crypto_prices",
        "type": "update",
        "timestamp": 1700000000,
        "payload": { "symbol": "btcusdt", "timestamp": 1700000000, "value": 43250.5 }
    }"#;
    let price = decode_price(data).expect("should deserialize");
    assert_eq!(price.source, CryptoPriceSource::Binance);
    assert_eq!(price.symbol, "btcusdt");
    assert_eq!(price.timestamp, 1700000000);
    let value: f64 = price.value.parse().unwrap();
    assert!((value - 43250.5).abs() < f64::EPSILON);
}

#[test]
fn deserialize_chainlink_envelope() {
    let data = r#"{
        "topic": "crypto_prices_chainlink",
        "type": "update",
        "timestamp": 1700000001,
        "payload": { "symbol": "eth/usd", "timestamp": 1700000001, "value": 2250.75 }
    }"#;
    let price = decode_price(data).expect("should deserialize");
    assert_eq!(price.source, CryptoPriceSource::Chainlink);
    assert_eq!(price.symbol, "eth/usd");
    let value: f64 = price.value.parse().unwrap();
    assert!((value - 2250.75).abs() < f64::EPSILON);
}

#[test]
fn serialize_binance_subscribe() {
    let msg = build_subscribe_msg(
        CryptoPriceSource::Binance,
        &vec!["btcusdt".to_string(), "ethusdt".to_string()],
    );
    let parsed: serde_json::Value = serde_json::from_str(&msg).expect("valid JSON");
    assert_eq!(parsed["action"], "subscribe");
    assert_eq!(parsed["subscriptions"].as_array().unwrap().len(), 2);
    assert_eq!(parsed["subscriptions"][0]["topic"], "crypto_prices");
    assert_eq!(parsed["subscriptions"][0]["type"], "*");
    let f0: serde_json::Value =
        serde_json::from_str(parsed["subscriptions"][0]["filters"].as_str().unwrap())
            .expect("filters should be valid JSON");
    assert_eq!(f0["symbol"], "btcusdt");
    let f1: serde_json::Value =
        serde_json::from_str(parsed["subscriptions"][1]["filters"].as_str().unwrap())
            .expect("filters should be valid JSON");
    assert_eq!(f1["symbol"], "ethusdt");
}

#[test]
fn serialize_chainlink_subscribe() {
    let msg = build_subscribe_msg(CryptoPriceSource::Chainlink, &vec!["eth/usd".to_string()]);
    let parsed: serde_json::Value = serde_json::from_str(&msg).expect("valid JSON");
    assert_eq!(parsed["action"], "subscribe");
    assert_eq!(parsed["subscriptions"][0]["topic"], "crypto_prices_chainlink");
    assert_eq!(parsed["subscriptions"][0]["type"], "*");
    let filters: serde_json::Value =
        serde_json::from_str(parsed["subscriptions"][0]["filters"].as_str().unwrap())
            .expect("filters should be valid JSON");
    assert_eq!(filters["symbol"], "eth/usd");
}

#[test]
fn serialize_binance_subscribe_all() {
    let msg = build_subscribe_msg(CryptoPriceSource::Binance, &Vec::new());
    let parsed: serde_json::Value = serde_json::from_str(&msg).expect("valid JSON");
    assert_eq!(parsed["subscriptions"][0]["type"], "*");
    assert_eq!(parsed["subscriptions"][0]["filters"], "");
}

#[test]
fn serialize_unsubscribe() {
    let msg = build_unsubscribe_msg(CryptoPriceSource::Binance, &vec!["btcusdt".to_string()]);
    let parsed: serde_json::Value = serde_json::from_str(&msg).expect("valid JSON");
    assert_eq!(parsed["action"], "unsubscribe");
    assert_eq!(parsed["subscriptions"][0]["topic"], "crypto_prices");
    let filters: serde_json::Value =
        serde_json::from_str(parsed["subscriptions"][0]["filters"].as_str().unwrap())
            .expect("filters should be valid JSON");
    assert_eq!(filters["symbol"], "btcusdt");
}

#[test]
fn ping_is_not_valid_price() {
    assert!(decode_price("PING").is_none());
}

#[test]
fn unknown_topic_returns_none() {
    assert!(source_from_topic("unknown_topic").is_none());
}

#[test]
fn topic_round_trip() {
    assert_eq!(
        source_from_topic(topic_for_source(CryptoPriceSource::Binance)),
        Some(CryptoPriceSource::Binance)
    );
    assert_eq!(
        source_from_topic(topic_for_source(CryptoPriceSource::Chainlink)),
        Some(CryptoPriceSource::Chainlink)
    );
}

#[test]
fn pong_and_unknown_topics_carry_no_price() {
    assert!(decode_price("PONG").is_none());
    let other = r#"{"topic":"other","payload":{"symbol":"x","timestamp":1,"value":1}}"#;
    assert!(decode_price(other).is_none());
    let bad_ts = r#"{"topic":"crypto_prices","timestamp":-1,"payload":{"symbol":"x","timestamp":1,"value":1}}"#;
    assert!(decode_price(bad_ts).is_none());
    let string_value = r#"{"topic":"crypto_prices","payload":{"symbol":"x","timestamp":1,"value":"1"}}"#;
    assert!(decode_price(string_value).is_none());
}

#[test]
fn unsubscribe_removes_every_equal_subscription() {
    let mut subs = CryptoSubscriptions::new();
    let btc = vec!["btcusdt".to_string()];
    let eth = vec!["ethusdt".to_string()];
    subs.add(CryptoPriceSource::Binance, &btc);
    subs.add(CryptoPriceSource::Chainlink, &btc);
    subs.add(CryptoPriceSource::Binance, &eth);
    subs.add(CryptoPriceSource::Binance, &btc);
    subs.remove(CryptoPriceSource::Binance, &btc);
    assert_eq!(subs.entries.len(), 2);
    assert_eq!(subs.entries[0].0, CryptoPriceSource::Chainlink);
    assert_eq!(subs.entries[1].1, eth);
    let replay = subs.replay();
    assert_eq!(replay.len(), 2);
    let first: serde_json::Value = serde_json::from_str(&replay[0]).unwrap();
    assert_eq!(first["subscriptions"][0]["topic"], "crypto_prices_chainlink");
}

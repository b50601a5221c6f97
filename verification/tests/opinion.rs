use openpx::opinion::ws::subscribe_all;
use openpx::subscriptions::MarketSet;
use openpx::json::{parse_json, Json};
use openpx::models::{FetchMarketsParams, MarketStatus, MarketStatusFilter, MarketType, OrderSide, OrderStatus};
use openpx::opinion::config::OpinionConfig;
use openpx::opinion::listing::{event_markets, markets_page_request, markets_page_result};
use openpx::opinion::market::parse_market;
use openpx::opinion::orders::{parse_order, parse_position};
use openpx::opinion::trades::{fill_of, trade_of, trade_limit, trade_page, next_trade_cursor};
use openpx::opinion::ws::{channel_messages, check_ws_config, handle_message, ws_url, OpinionUpdate};
use openpx::events::{BookSide, LiquidityRole};

fn doc(text: &str) -> Json {
    parse_json(text).expect("test JSON must parse")
}

fn params(status: Option<MarketStatusFilter>, cursor: Option<&str>, limit: Option<usize>) -> FetchMarketsParams {
    FetchMarketsParams {
        status,
        cursor: cursor.map(|c| c.to_string()),
        limit,
        series_ticker: None,
        event_ticker: None,
        event_id: None,
        market_tickers: Vec::new(),
    }
}

#[test]
fn exchange_tests_test_config_builder() {
    let config = OpinionConfig::new()
        .with_api_key("test-key")
        .with_private_key("test-pk")
        .with_multi_sig("0x123")
        .with_api_url("http://test.example")
        .with_verbose(true);

    assert_eq!(config.api_key, Some("test-key".to_string()));
    assert_eq!(config.private_key, Some("test-pk".to_string()));
    assert_eq!(config.multi_sig_addr, Some("0x123".to_string()));
    assert_eq!(config.api_url, "http://test.example");
    assert!(config.base.verbose);
    assert!(config.is_authenticated());
}

#[test]
fn exchange_tests_test_default_config_not_authenticated() {
    let config = OpinionConfig::new();

    assert!(config.api_key.is_none());
    assert!(config.private_key.is_none());
    assert!(config.multi_sig_addr.is_none());
    assert!(!config.is_authenticated());
}

#[test]
fn new_requires_api_key() {
    let config = OpinionConfig::new();
    assert!(check_ws_config(&config).is_err());
}

#[test]
fn ws_url_includes_api_key() {
    let config = OpinionConfig::new().with_api_key("test_key");
    assert!(check_ws_config(&config).is_ok());
    let url = ws_url(&config).unwrap();
    assert!(url.contains("apikey=test_key"));
    assert!(url.starts_with("wss://ws.opinion.trade"));
    assert_eq!(url, "wss://ws.opinion.trade/?apikey=test_key");
}

#[test]
fn market_with_binary_tokens() {
    let v = doc(
        r#"{
            "market_id": "123",
            "market_title": "Will BTC reach $100k?",
            "yes_token_id": "token_yes_123",
            "no_token_id": "token_no_123",
            "yes_label": "Yes",
            "no_label": "No",
            "volume": 50000.0,
            "liquidity": 10000.0,
            "description": "Bitcoin price prediction"
        }"#,
    );
    let m = parse_market(&v, 56).expect("market");
    assert_eq!(m.id, "123");
    assert_eq!(m.openpx_id, "opinion:123");
    assert_eq!(m.exchange, "opinion");
    assert_eq!(m.title, "Will BTC reach $100k?");
    assert_eq!(m.question.as_deref(), Some("Will BTC reach $100k?"));
    assert_eq!(m.outcomes, vec!["Yes".to_string(), "No".to_string()]);
    assert_eq!(m.token_id_yes.as_deref(), Some("token_yes_123"));
    assert_eq!(m.token_id_no.as_deref(), Some("token_no_123"));
    assert_eq!(m.outcome_tokens.len(), 2);
    assert_eq!(m.market_type, MarketType::Binary);
    assert_eq!(m.status, MarketStatus::Active);
    assert!(m.accepting_orders);
    assert_eq!(m.description, "Bitcoin price prediction");
    assert_eq!(m.tick_size, "0.001");
    assert_eq!(m.chain_id, "56");
    let volume: f64 = m.volume.as_deref().unwrap().parse().unwrap();
    assert_eq!(volume, 50000.0);
}

#[test]
fn market_close_time_and_status_code() {
    let v = doc(r#"{"marketId": 789, "cutoff_at": 1735689600, "status": 4, "createdAt": -5}"#);
    let m = parse_market(&v, 56).expect("market");
    assert_eq!(m.id, "789");
    assert_eq!(m.close_time, Some(1_735_689_600_000));
    assert_eq!(m.created_at, None);
    assert_eq!(m.status, MarketStatus::Resolved);
    assert!(!m.accepting_orders);
    assert_eq!(m.outcomes, vec!["Yes".to_string(), "No".to_string()]);
    assert!(m.token_id_yes.is_none());
}

#[test]
fn categorical_market_from_children() {
    let v = doc(
        r#"{
            "marketId": "9",
            "statusEnum": "Activated",
            "groupId": 77,
            "childMarkets": [
                {"marketTitle": "A", "yesTokenId": "ta"},
                {"marketTitle": "B"},
                {"noTitle": true},
                {"market_title": "C", "yes_token_id": "tc"}
            ]
        }"#,
    );
    let m = parse_market(&v, 56).expect("market");
    assert_eq!(m.outcomes, vec!["A".to_string(), "B".to_string(), "C".to_string()]);
    assert_eq!(m.outcome_tokens.len(), 2);
    assert_eq!(m.outcome_tokens[1].outcome, "C");
    assert_eq!(m.outcome_tokens[1].token_id, "tc");
    assert_eq!(m.market_type, MarketType::Categorical);
    assert_eq!(m.status, MarketStatus::Active);
    assert_eq!(m.group_id.as_deref(), Some("77"));
    assert_eq!(m.event_id.as_deref(), Some("opinion:77"));
}

#[test]
fn market_without_id_is_none() {
    let v = doc(r#"{"market_title": "no id"}"#);
    assert!(parse_market(&v, 56).is_none());
}

#[test]
fn page_request_and_cursor() {
    let r = markets_page_request(&params(None, Some("40"), Some(20)));
    assert_eq!(r.offset, 40);
    assert_eq!(r.limit, 20);
    assert_eq!(r.endpoint, "/openapi/market?marketType=2&page=3&limit=20&status=activated");
    let all = markets_page_request(&params(Some(MarketStatusFilter::All), None, Some(50)));
    assert_eq!(all.endpoint, "/openapi/market?marketType=2&page=1&limit=20");
    let resolved = markets_page_request(&params(Some(MarketStatusFilter::Closed), Some("x"), None));
    assert_eq!(resolved.offset, 0);
    assert_eq!(resolved.endpoint, "/openapi/market?marketType=2&page=1&limit=20&status=resolved");
}

#[test]
fn test_fetch_markets_status_filters_on_page() {
    let rows = vec![
        doc(r#"{"market_id":"1","statusEnum":"Activated"}"#),
        doc(r#"{"market_id":"2","statusEnum":"Resolved"}"#),
        doc(r#"{"market_id":"3","status":9}"#),
    ];
    let (active, cursor) = markets_page_result(&rows, None, 0, 3, 56);
    assert_eq!(active.len(), 1);
    assert_eq!(active[0].id, "1");
    assert_eq!(cursor.as_deref(), Some("3"));
    let (all, cursor) = markets_page_result(&rows, Some(MarketStatusFilter::All), 20, 20, 56);
    assert_eq!(all.len(), 3);
    assert!(cursor.is_none());
    let (closed, _) = markets_page_result(&rows, Some(MarketStatusFilter::Closed), 0, 20, 56);
    assert_eq!(closed.len(), 1);
    assert_eq!(closed[0].id, "3");
}

#[test]
fn event_children_take_parent_group() {
    let v = doc(
        r#"{"marketId": 50, "childMarkets": [
            {"marketId": 51, "statusEnum": "activated"},
            {"marketId": 52, "statusEnum": "resolved"},
            {"marketId": 53, "groupId": "g", "statusEnum": "activated"}
        ]}"#,
    );
    let ms = event_markets(&v, None, 56);
    assert_eq!(ms.len(), 2);
    assert_eq!(ms[0].id, "51");
    assert_eq!(ms[0].group_id.as_deref(), Some("50"));
    assert_eq!(ms[0].event_id.as_deref(), Some("opinion:50"));
    assert_eq!(ms[1].group_id.as_deref(), Some("g"));
    let lone = doc(r#"{"marketId": 60, "statusEnum": "activated"}"#);
    let ms = event_markets(&lone, Some(MarketStatusFilter::All), 56);
    assert_eq!(ms.len(), 1);
    assert_eq!(ms[0].id, "60");
}

#[test]
fn order_fields_and_codes() {
    let v = doc(
        r#"{"orderId": 11, "marketId": "m", "side": 1, "status": 4, "price": "0.65", "orderShares": 10, "filledShares": "2.5", "outcome": "YES", "createdAt": 1700000000}"#,
    );
    let o = parse_order(&v, 5);
    assert_eq!(o.id, "11");
    assert_eq!(o.market_ticker, "m");
    assert_eq!(o.side, OrderSide::Buy);
    assert_eq!(o.status, OrderStatus::Cancelled);
    assert_eq!(o.size.as_deref(), Some("10"));
    assert_eq!(o.filled.as_deref(), Some("2.5"));
    assert_eq!(o.outcome, "YES");
    assert_eq!(o.created_at, 1_700_000_000_000);
    let words = doc(r#"{"sideEnum": "SELL", "status": "Partially_Filled"}"#);
    let o = parse_order(&words, 5);
    assert_eq!(o.side, OrderSide::Sell);
    assert_eq!(o.status, OrderStatus::PartiallyFilled);
    assert_eq!(o.created_at, 5);
    assert_eq!(o.id, "");
}

#[test]
fn position_fields() {
    let v = doc(r#"{"topic_id": 4, "token_name": "NO", "balance": "3", "avg_entry_price": 0.4, "price": "x"}"#);
    let p = parse_position(&v);
    assert_eq!(p.market_id, "4");
    assert_eq!(p.outcome, "NO");
    assert_eq!(p.size.as_deref(), Some("3"));
    assert_eq!(p.average_price.as_deref(), Some("0.4"));
    assert!(p.current_price.is_none());
}

#[test]
fn trade_rows_and_paging() {
    assert_eq!(trade_limit(None), 20);
    assert_eq!(trade_limit(Some(0)), 1);
    assert_eq!(trade_limit(Some(500)), 100);
    assert_eq!(trade_page(Some("4")), 4);
    assert_eq!(trade_page(Some("four")), 1);
    assert_eq!(next_trade_cursor(20, 20, 4).as_deref(), Some("5"));
    assert!(next_trade_cursor(19, 20, 4).is_none());
    let row = doc(r#"{"trade_id": 99, "price": "0.5", "shares": 3, "side": 1, "market_id": "m1", "created_at": 10}"#);
    let t = trade_of(&row, "m1", 0).expect("trade");
    assert_eq!(t.id.as_deref(), Some("99"));
    assert_eq!(t.aggressor_side.as_deref(), Some("buy"));
    assert_eq!(t.timestamp, 10_000);
    assert_eq!(t.source_channel, "opinion_rest_trade");
    assert!(trade_of(&row, "other", 0).is_none());
    let f = fill_of(&row, Some("m1"), 0).expect("fill");
    assert_eq!(f.fill_id, "99");
    assert_eq!(f.side, OrderSide::Buy);
    assert_eq!(f.outcome, "Yes");
    let sell = doc(r#"{"id": "t", "price": 0.2, "side": 2}"#);
    let f = fill_of(&sell, None, 7).expect("fill");
    assert_eq!(f.side, OrderSide::Sell);
    assert_eq!(f.market_ticker, "");
    assert_eq!(f.created_at, 7);
    assert!(fill_of(&sell, Some("m"), 7).is_none());
}

#[test]
fn subscription_commands() {
    let msgs = channel_messages("123", true).expect("numeric id");
    assert_eq!(msgs.len(), 5);
    let first: serde_json::Value = serde_json::from_str(&msgs[0]).unwrap();
    assert_eq!(first["action"], "SUBSCRIBE");
    assert_eq!(first["channel"], "market.depth.diff");
    assert_eq!(first["marketId"], 123);
    let off = channel_messages("7", false).unwrap();
    let last: serde_json::Value = serde_json::from_str(&off[4]).unwrap();
    assert_eq!(last["action"], "UNSUBSCRIBE");
    assert_eq!(last["channel"], "trade.record.new");
    assert!(channel_messages("abc", true).is_err());
}

#[test]
fn handle_depth_diff_yes_bid() {
    let msg = doc(r#"{"msgType":"market.depth.diff","marketId":123,"outcomeSide":1,"side":"bids","price":"0.65","size":"100"}"#);
    match handle_message(&msg) {
        Some(OpinionUpdate::Depth(d)) => {
            assert_eq!(d.market_id, "123");
            assert_eq!(d.side, BookSide::Bid);
            assert!(!d.complement);
            assert_eq!(d.price, "0.65");
            assert_eq!(d.size.as_deref(), Some("100"));
        }
        other => panic!("expected depth, got {other:?}"),
    }
}

#[test]
fn handle_depth_diff_no_bid_inverts() {
    let msg = doc(r#"{"msgType":"market.depth.diff","marketId":456,"outcomeSide":2,"side":"bids","price":0.3,"size":50}"#);
    match handle_message(&msg) {
        Some(OpinionUpdate::Depth(d)) => {
            assert_eq!(d.side, BookSide::Ask);
            assert!(d.complement);
            assert_eq!(d.price, "0.3");
        }
        other => panic!("expected depth, got {other:?}"),
    }
}

#[test]
fn handle_last_trade_emits_trade() {
    let msg = doc(r#"{"msgType":"market.last.trade","marketId":789,"price":"0.55","shares":25,"side":"buy","tokenId":"token_yes_789"}"#);
    match handle_message(&msg) {
        Some(OpinionUpdate::Trade(t)) => {
            assert_eq!(t.market_id, "789");
            assert_eq!(t.asset_id, "token_yes_789");
            assert_eq!(t.side.as_deref(), Some("buy"));
            assert_eq!(t.size.as_deref(), Some("25"));
        }
        other => panic!("expected trade, got {other:?}"),
    }
}

#[test]
fn handle_order_update_fill_and_non_fill() {
    let fill = doc(r#"{"msgType":"trade.order.update","orderUpdateType":"orderFill","marketId":1,"price":"0.4","filledShares":"5","side":2,"outcomeSide":1,"orderId":"o1","createdAt":1700000000}"#);
    match handle_message(&fill) {
        Some(OpinionUpdate::Fill(f)) => {
            assert_eq!(f.side.as_deref(), Some("sell"));
            assert_eq!(f.outcome.as_deref(), Some("Yes"));
            assert_eq!(f.exchange_ts_ms, Some(1_700_000_000_000));
            assert_eq!(f.source_channel, "trade.order.update");
        }
        other => panic!("expected fill, got {other:?}"),
    }
    let new_order = doc(r#"{"msgType":"trade.order.update","orderUpdateType":"orderNew","marketId":1,"price":"0.4"}"#);
    assert!(handle_message(&new_order).is_none());
}

#[test]
fn handle_trade_executed_emits_fill() {
    let msg = doc(r#"{"msgType":"trade.record.new","marketId":"5","price":0.7,"shares":"2","side":"Buy","tradeNo":"T1","txHash":"0xab","fee":"0.01","createdAt":1700000000000}"#);
    match handle_message(&msg) {
        Some(OpinionUpdate::Fill(f)) => {
            assert_eq!(f.side.as_deref(), Some("buy"));
            assert_eq!(f.liquidity_role, Some(LiquidityRole::Taker));
            assert_eq!(f.fill_id.as_deref(), Some("T1"));
            assert_eq!(f.tx_hash.as_deref(), Some("0xab"));
            assert_eq!(f.fee.as_deref(), Some("0.01"));
            assert_eq!(f.exchange_ts_ms, Some(1_700_000_000_000));
        }
        other => panic!("expected fill, got {other:?}"),
    }
    assert!(handle_message(&doc(r#"{"msgType":"other"}"#)).is_none());
}

#[test]
fn subscribe_all_lists_commands_per_market() {
    let mut markets = MarketSet::new();
    markets.insert("12");
    markets.insert("34");
    let (groups, refused) = subscribe_all(&markets);
    assert!(refused.is_none());
    assert_eq!(groups.len(), 2);
    assert_eq!(groups[0].len(), 5);
    let first: serde_json::Value = serde_json::from_str(&groups[1][0]).unwrap();
    assert_eq!(first["action"], "SUBSCRIBE");
    assert_eq!(first["marketId"], 34);
    markets.insert("bad");
    markets.insert("56");
    let (groups, refused) = subscribe_all(&markets);
    assert_eq!(groups.len(), 2);
    match refused {
        Some(openpx::events::WebSocketError::Subscription(m)) => assert_eq!(m, "invalid market_id: bad"),
        other => panic!("unexpected {other:?}"),
    }
}

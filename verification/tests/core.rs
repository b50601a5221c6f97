use openpx::events::{InvalidationReason, SessionEvent, WebSocketError};
use openpx::number::is_float;
use openpx::session::{reconnect_notices, LinkStep, Supervisor, WsDispatcherConfig, WS_MAX_RECONNECT_ATTEMPTS};
use openpx::subscriptions::MarketSet;
use openpx::text::{eq_ignore_ascii_case, parse_i64, parse_u64, str_contains, to_ascii_lowercase, trim};
use openpx::ws_state::{AtomicWebSocketState, WebSocketState};
use std::time::Duration;

#[test]
fn state_labels_and_codes() {
    assert_eq!(WebSocketState::Connected.as_str(), "Connected");
    assert_eq!(WebSocketState::Reconnecting.as_str(), "Reconnecting");
    for s in [
        WebSocketState::Disconnected,
        WebSocketState::Connecting,
        WebSocketState::Connected,
        WebSocketState::Reconnecting,
        WebSocketState::Closed,
    ] {
        assert_eq!(WebSocketState::from_u8(s.as_u8()), s);
    }
    assert_eq!(WebSocketState::from_u8(200), WebSocketState::Disconnected);
}

#[test]
fn atomic_state_reads_what_was_stored() {
    let a = AtomicWebSocketState::new(WebSocketState::Connecting);
    assert_eq!(a.load(), WebSocketState::Connecting);
    a.store(WebSocketState::Closed);
    assert_eq!(a.load(), WebSocketState::Closed);
}

#[test]
fn session_events() {
    match SessionEvent::reconnected(Duration::from_millis(1500)) {
        SessionEvent::Reconnected { gap_ms } => assert_eq!(gap_ms, 1500),
        other => panic!("{other:?}"),
    }
    match SessionEvent::error(WebSocketError::Connection("boom".to_string())) {
        SessionEvent::Error { message } => assert_eq!(message, "connection error: boom"),
        other => panic!("{other:?}"),
    }
}

#[test]
fn dispatcher_config_default() {
    let c = WsDispatcherConfig::default();
    assert_eq!(c.updates_capacity, 4096);
    assert_eq!(c.session_capacity, 256);
}

#[test]
fn supervisor_retries_then_gives_up() {
    let mut s = Supervisor::new(true);
    let (state, step) = s.on_lost(WebSocketState::Connected);
    assert_eq!(state, WebSocketState::Reconnecting);
    assert_eq!(step, LinkStep::Retry { attempt: 1 });
    for attempt in 2..=WS_MAX_RECONNECT_ATTEMPTS {
        assert_eq!(s.on_reconnect_failed(), (WebSocketState::Reconnecting, LinkStep::Retry { attempt }));
    }
    assert_eq!(s.on_reconnect_failed(), (WebSocketState::Disconnected, LinkStep::GiveUp));
}

#[test]
fn supervisor_starts_over_after_reconnect() {
    let mut s = Supervisor::new(true);
    s.on_lost(WebSocketState::Connected);
    s.on_reconnect_failed();
    assert_eq!(s.on_connected(), WebSocketState::Connected);
    assert_eq!(s.attempts, 0);
    assert_eq!(s.on_session_ended(WebSocketState::Connected), (WebSocketState::Reconnecting, LinkStep::Retry { attempt: 1 }));
    assert_eq!(s.on_session_ended(WebSocketState::Closed), (WebSocketState::Closed, LinkStep::Stop));
    let mut off = Supervisor::new(false);
    assert_eq!(off.on_lost(WebSocketState::Connected), (WebSocketState::Disconnected, LinkStep::Stop));
    assert_eq!(off.attempts, 0);
}

#[test]
fn reconnect_raises_one_event_then_one_per_market() {
    let markets = vec!["A".to_string(), "B".to_string()];
    let evs = reconnect_notices(Duration::from_secs(2), &markets);
    assert_eq!(evs.len(), 3);
    assert!(matches!(evs[0], SessionEvent::Reconnected { gap_ms: 2000 }));
    match &evs[2] {
        SessionEvent::BookInvalidated { market_id, reason } => {
            assert_eq!(market_id, "B");
            assert_eq!(*reason, InvalidationReason::Reconnect);
        }
        other => panic!("{other:?}"),
    }
}

#[test]
fn market_set_insert_remove() {
    let mut s = MarketSet::new();
    s.insert("a");
    s.insert("b");
    s.insert("a");
    assert_eq!(s.len(), 2);
    assert!(s.contains("a"));
    s.remove("a");
    assert!(!s.contains("a"));
    assert!(s.contains("b"));
    assert_eq!(s.to_vec(), vec!["b".to_string()]);
}

#[test]
fn float_text_grammar() {
    for ok in ["0.65", "1", "-2.5e3", "+.5", "5.", "1E-9", "inf", "-Infinity", "NaN", "007"] {
        assert!(is_float(ok), "{ok}");
        assert!(ok.parse::<f64>().is_ok(), "{ok}");
    }
    for bad in ["", ".", "1..2", "e5", "1e", "1e+", " 1", "0x10", "1_000", "infinite", "--1"] {
        assert!(!is_float(bad), "{bad}");
        assert!(bad.parse::<f64>().is_err(), "{bad}");
    }
}

#[test]
fn text_helpers() {
    assert_eq!(trim("  a b \n"), "a b");
    assert_eq!(to_ascii_lowercase("AbÇ"), "abÇ");
    assert!(eq_ignore_ascii_case("YeS", "yes"));
    assert_eq!(parse_u64("+42"), Some(42));
    assert_eq!(parse_u64("18446744073709551616"), None);
    assert_eq!(parse_i64("-9223372036854775808"), Some(i64::MIN));
    assert_eq!(parse_i64("-"), None);
    assert!(str_contains("abc", "bc"));
    assert!(!str_contains("abc", "cd"));
}

use openpx::json::{parse_json, Json};
use openpx::kalshi::catalog::{parse_kalshi_event, parse_kalshi_series};

fn doc(text: &str) -> Json {
    parse_json(text).expect("test JSON must parse")
}

#[test]
fn parse_kalshi_event_minimal_payload() {
    let v = doc(
        r#"{
            "event_ticker": "KXPRES-2028",
            "series_ticker": "KXPRES",
            "title": "2028 US Presidential Election",
            "sub_title": "Winning candidate",
            "mutually_exclusive": true,
            "strike_date": "2028-11-07T00:00:00Z",
            "last_updated_ts": "2026-04-26T12:34:56Z"
        }"#,
    );
    let e = parse_kalshi_event(&v).expect("should parse");
    assert_eq!(e.ticker, "KXPRES-2028");
    assert!(e.numeric_id.is_none());
    assert_eq!(e.series_ticker.as_deref(), Some("KXPRES"));
    assert_eq!(e.title, "2028 US Presidential Election");
    assert_eq!(e.description.as_deref(), Some("Winning candidate"));
    assert_eq!(e.mutually_exclusive, Some(true));
    assert!(e.end_ts.is_some());
    assert!(e.last_updated_ts.is_some());
    assert!(e.market_tickers.is_empty());
}

#[test]
fn parse_kalshi_event_with_nested_markets() {
    let v = doc(
        r#"{
            "event_ticker": "EVT",
            "title": "T",
            "markets": [
                { "ticker": "M-A" },
                { "ticker": "M-B" },
                { "no_ticker_here": "skip" }
            ]
        }"#,
    );
    let e = parse_kalshi_event(&v).expect("parse");
    assert_eq!(e.market_tickers, vec!["M-A".to_string(), "M-B".to_string()]);
}

#[test]
fn parse_kalshi_event_missing_required_returns_none() {
    let v = doc(r#"{ "title": "no ticker" }"#);
    assert!(parse_kalshi_event(&v).is_none());
}

#[test]
fn parse_kalshi_series_with_volume() {
    let v = doc(
        r#"{
            "ticker": "KXSPX",
            "title": "S&P 500 Daily",
            "category": "Economics",
            "frequency": "daily",
            "tags": ["finance", "indices"],
            "settlement_sources": [
                { "name": "S&P Dow Jones", "url": "https://example.com" }
            ],
            "fee_type": "quadratic",
            "volume_fp": "1234567.89",
            "last_updated_ts": "2026-04-27T00:00:00Z"
        }"#,
    );
    let s = parse_kalshi_series(&v).expect("parse");
    assert_eq!(s.ticker, "KXSPX");
    assert!(s.numeric_id.is_none());
    assert_eq!(s.frequency.as_deref(), Some("daily"));
    assert_eq!(s.tags, vec!["finance".to_string(), "indices".to_string()]);
    assert_eq!(s.settlement_sources.len(), 1);
    assert_eq!(s.fee_type.as_deref(), Some("quadratic"));
    let volume: Option<f64> = s.volume.as_deref().map(|t| t.parse().unwrap());
    assert_eq!(volume, Some(1_234_567.89));
}

#[test]
fn parse_kalshi_series_without_volume_omits_field() {
    let v = doc(r#"{ "ticker": "KX", "title": "x" }"#);
    let s = parse_kalshi_series(&v).expect("parse");
    assert!(s.volume.is_none());
}

#[test]
fn series_volume_that_is_not_a_number_is_dropped() {
    let v = doc(r#"{ "ticker": "KX", "volume_fp": "12x" }"#);
    let s = parse_kalshi_series(&v).expect("parse");
    assert!(s.volume.is_none());
    assert_eq!(s.title, "");
}

#[test]
fn series_settlement_source_fields() {
    let v = doc(
        r#"{ "ticker": "KX", "settlement_sources": [ {"name": "A"}, {"url": "u"} ] }"#,
    );
    let s = parse_kalshi_series(&v).expect("parse");
    assert_eq!(s.settlement_sources.len(), 2);
    assert_eq!(s.settlement_sources[0].name.as_deref(), Some("A"));
    assert!(s.settlement_sources[0].url.is_none());
    assert_eq!(s.settlement_sources[1].url.as_deref(), Some("u"));
}

#[test]
fn event_empty_subtitle_is_no_description() {
    let v = doc(r#"{ "event_ticker": "E", "sub_title": "" }"#);
    let e = parse_kalshi_event(&v).expect("parse");
    assert!(e.description.is_none());
    assert_eq!(e.title, "");
    assert_eq!(e.end_ts, None);
}

#[test]
fn event_strike_date_is_end_time_in_millis() {
    let v = doc(r#"{ "event_ticker": "E", "strike_date": "1970-01-01T00:00:01Z" }"#);
    let e = parse_kalshi_event(&v).expect("parse");
    assert_eq!(e.end_ts, Some(1000));
}

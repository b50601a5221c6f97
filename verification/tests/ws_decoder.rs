use openpx::json::Json;
use openpx::ws_decoder::{decode_frame, decode_value, WsFrame};

fn field_str<'a>(j: &'a Json, key: &str) -> Option<&'a str> {
    j.get(key).and_then(|v| v.as_str())
}

#[test]
fn single_object() {
    let text = r#"{"event":"book","seq":42}"#;
    match decode_frame(text).unwrap() {
        WsFrame::Single(m) => {
            assert_eq!(field_str(&m, "event"), Some("book"));
            assert_eq!(m.get("seq").and_then(|v| v.as_u64()), Some(42));
        }
        WsFrame::Array(_) => panic!("expected single"),
    }
}

#[test]
fn array_of_objects() {
    let text = r#"[{"event":"book","seq":1},{"event":"trade","seq":2}]"#;
    match decode_frame(text).unwrap() {
        WsFrame::Array(items) => assert_eq!(items.len(), 2),
        WsFrame::Single(_) => panic!("expected array"),
    }
}

#[test]
fn whitespace_prefix() {
    let text = "   \n  [{\"event\":\"book\",\"seq\":1}]";
    assert!(matches!(decode_frame(text), Some(WsFrame::Array(_))));
}

#[test]
fn malformed_returns_none() {
    assert!(decode_frame("{not json").is_none());
    assert!(decode_frame("").is_none());
}

#[test]
fn large_frame_uses_simd() {
    let mut inner = String::new();
    for i in 0..100 {
        if i > 0 {
            inner.push(',');
        }
        inner.push_str(&format!(r#"{{"event":"tick","seq":{i}}}"#));
    }
    let text = format!("[{inner}]");
    match decode_frame(&text).unwrap() {
        WsFrame::Array(items) => assert_eq!(items.len(), 100),
        WsFrame::Single(_) => panic!("expected array"),
    }
}

#[test]
fn decode_value_handles_both_sizes() {
    let small = r#"{"msgType":"ping","seq":1}"#;
    let v = decode_value(small).unwrap();
    assert_eq!(field_str(&v, "msgType"), Some("ping"));

    let mut fields = String::new();
    for i in 0..200 {
        if i > 0 {
            fields.push(',');
        }
        fields.push_str(&format!(r#""k{i}":"value_{i}""#));
    }
    let large = format!("{{{fields}}}");
    let v = decode_value(&large).unwrap();
    assert_eq!(field_str(&v, "k0"), Some("value_0"));
}

#[test]
fn single_object_not_array_when_brace_first() {
    assert!(matches!(decode_frame(" {\"a\":[1]}"), Some(WsFrame::Single(_))));
}

#[test]
fn bracket_first_but_not_an_array_is_none() {
    assert!(decode_frame("[1").is_none());
}

#[test]
fn for_each_visits_items_in_order() {
    let frame = decode_frame("[1,2,3]").unwrap();
    let mut seen = Vec::new();
    frame.for_each(|j| seen.push(j.as_u64().unwrap()));
    assert_eq!(seen, vec![1, 2, 3]);
}

//! Where Kalshi's WebSocket lives: derived from the REST API URL, on the
//! same host and port, with the secure scheme when the API is secure.

use vstd::prelude::*;
use vstd::string::*;

use crate::events::WebSocketError;
use crate::json::opt_view;
use crate::text::{decimal, owned, push_decimal};

verus! {

/// The path of the WebSocket endpoint.
pub const WS_PATH: &'static str = "/trade-api/ws/v2";

/// What `url::Url::parse` (re-exported by `reqwest`) makes of `text`: the
/// serialization, scheme, host text and explicit non-default port of the
/// URL, or the text of the parse error. The WHATWG URL grammar is left
/// uninterpreted.
pub uninterp spec fn spec_url_parse(text: Seq<char>) -> Result<
    (Seq<char>, Seq<char>, Option<Seq<char>>, Option<u16>),
    Seq<char>,
>;

/// `reqwest::Url::parse`, read back as `as_str`, `scheme`, `host_str` and
/// `port`; on failure the error's `to_string`.
#[verifier::external_body]
fn url_parse(text: &str) -> (r: Result<(String, String, Option<String>, Option<u16>), String>)
    ensures
        match r {
            Ok((s, scheme, host, port)) => spec_url_parse(text@) == Ok::<
                (Seq<char>, Seq<char>, Option<Seq<char>>, Option<u16>),
                Seq<char>,
            >((s@, scheme@, opt_view(host), port)),
            Err(e) => spec_url_parse(text@) == Err::<
                (Seq<char>, Seq<char>, Option<Seq<char>>, Option<u16>),
                Seq<char>,
            >(e@),
        },
{
    match reqwest::Url::parse(text) {
        Ok(u) => {
            let host = match u.host_str() {
                Some(h) => Some(h.to_owned()),
                None => None,
            };
            Ok((u.as_str().to_owned(), u.scheme().to_owned(), host, u.port()))
        },
        Err(e) => Err(e.to_string()),
    }
}

/// The WebSocket URL text for an API of `scheme` on `host` and `port`:
/// `wss` for an `https` API, else `ws`.
pub open spec fn ws_url_text(scheme: Seq<char>, host: Seq<char>, port: Option<u16>) -> Seq<char> {
    (if scheme == "https"@ {
        "wss"@
    } else {
        "ws"@
    }) + "://"@ + host + match port {
        Some(p) => ":"@ + decimal(p as nat),
        None => Seq::empty(),
    } + WS_PATH@
}

/// The WebSocket endpoint of the API at `api_url`, as a parsed URL's text;
/// every failure is a connection error: the API URL does not parse, has no
/// host, or the derived URL does not parse.
pub open spec fn ws_endpoint_of(api_url: Seq<char>) -> Result<Seq<char>, Seq<char>> {
    match spec_url_parse(api_url) {
        Err(e) => Err(e),
        Ok((_, scheme, host, port)) => match host {
            None => Err("missing host"@),
            Some(h) => match spec_url_parse(ws_url_text(scheme, h, port)) {
                Err(e) => Err(e),
                Ok((s, _, _, _)) => Ok(s),
            },
        },
    }
}

/// Derives the WebSocket endpoint from the REST API URL.
pub fn ws_endpoint(api_url: &str) -> (r: Result<String, WebSocketError>)
    ensures
        match ws_endpoint_of(api_url@) {
            Ok(s) => r matches Ok(u) && u@ == s,
            Err(m) => r matches Err(WebSocketError::Connection(e)) && e@ == m,
        },
{
    proof {
        reveal_strlit("missing host");
        reveal_strlit("https");
    }
    let (_, scheme, host, port) = match url_parse(api_url) {
        Ok(parts) => parts,
        Err(e) => return Err(WebSocketError::Connection(e)),
    };
    let host = match host {
        Some(h) => h,
        None => return Err(WebSocketError::Connection(owned("missing host"))),
    };
    let secure = crate::text::str_eq(scheme.as_str(), "https");
    let mut text = owned(if secure {
        "wss"
    } else {
        "ws"
    });
    text.append("://");
    text.append(host.as_str());
    let ghost before_port = text@;
    match port {
        Some(p) => {
            text.append(":");
            push_decimal(&mut text, p as u64);
        },
        None => {},
    }
    text.append(WS_PATH);
    proof {
        reveal_strlit("wss");
        reveal_strlit("ws");
        reveal_strlit("://");
        reveal_strlit(":");
        assert(text@ =~= ws_url_text(scheme@, host@, port));
    }
    match url_parse(text.as_str()) {
        Ok((s, _, _, _)) => Ok(s),
        Err(e) => Err(WebSocketError::Connection(e)),
    }
}

} // verus!

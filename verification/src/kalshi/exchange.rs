//! Kalshi REST rules: request signing paths, error classification of
//! responses, wire names, and the parsing of events and series.

use vstd::prelude::*;
use vstd::string::*;

use crate::json::{parse_json, serde_parse, spec_parse_error, spec_parse_json, Json};
use crate::kalshi::error::KalshiError;
use crate::models::{ExchangeInfo, MarketStatus, OrderOutcome, OrderSide, OrderStatus, OrderType};
use crate::text::{chars_of, concat, find_chars, find_from, owned, rfind_char, rfind_char_in, str_eq, string_of_chars};

verus! {

/// The path a request to `api_url` + `path` is signed over: the path part
/// of the API URL (from the first `/` after `://`) followed by `path`;
/// just `path` when the URL has no such part.
pub open spec fn signing_path_spec(api_url: Seq<char>, path: Seq<char>) -> Seq<char> {
    match find_from(api_url, "://"@, 0) {
        Some(s) => match find_from(api_url, "/"@, s + 3) {
            Some(p) => api_url.subrange(p, api_url.len() as int) + path,
            None => path,
        },
        None => path,
    }
}

/// Builds the signing path, e.g. `https://host/trade-api/v2` with
/// `/portfolio/balance` gives `/trade-api/v2/portfolio/balance`.
pub fn signing_path(api_url: &str, path: &str) -> (r: String)
    ensures
        r@ == signing_path_spec(api_url@, path@),
{
    let u = chars_of(api_url);
    let sep = chars_of("://");
    let slash = chars_of("/");
    proof {
        reveal_strlit("://");
    }
    match find_chars(&u, &sep, 0) {
        Some(s) => {
            proof {
                crate::text::lemma_find_from_bounds_pub(u@, sep@, 0);
                assert(sep@.len() == 3);
                assert(s + 3 <= u@.len());
                assert(u@.len() == u.len());
            }
            match find_chars(&u, &slash, s + 3) {
                Some(p) => {
                    proof {
                        crate::text::lemma_find_from_bounds_pub(u@, slash@, s + 3);
                    }
                    let mut r = string_of_chars(&u, p, u.len());
                    r.append(path);
                    r
                },
                None => owned(path),
            }
        },
        None => owned(path),
    }
}

/// The last `/`-separated segment of `path` (`path.rsplit('/').next()`).
pub open spec fn last_segment(path: Seq<char>) -> Seq<char> {
    match rfind_char(path, '/', path.len() as int) {
        Some(k) => path.subrange(k + 1, path.len() as int),
        None => path,
    }
}

/// The error a response status settles before its body is read: 429 is a
/// rate limit.
pub fn status_precheck(http_status: u16) -> (r: Option<KalshiError>)
    ensures
        http_status == 429 ==> r matches Some(KalshiError::RateLimited),
        http_status != 429 ==> r is None,
{
    if http_status == 429 {
        Some(KalshiError::RateLimited)
    } else {
        None
    }
}

/// The `(code, message)` of a structured error body
/// `{"error": {"code": .., "message": ..}}`; a missing code reads as empty,
/// a missing message as `unknown error`.
pub open spec fn structured_error(body: Seq<char>) -> Option<(Seq<char>, Seq<char>)> {
    match spec_parse_json(body) {
        Some(j) => match j.field("error"@) {
            Some(e) => if e is Object {
                let code = match e.field("code"@) {
                    Some(c) => match c.str_of() {
                        Some(s) => s,
                        None => Seq::empty(),
                    },
                    None => Seq::empty(),
                };
                let message = match e.field("message"@) {
                    Some(m) => match m.str_of() {
                        Some(s) => s,
                        None => "unknown error"@,
                    },
                    None => "unknown error"@,
                };
                Some((code, message))
            } else {
                None
            },
            None => None,
        },
        None => None,
    }
}

/// Whether `e` is the error `response_error` gives for a response.
pub open spec fn is_response_error(e: KalshiError, http_status: u16, path: Seq<char>, body: Seq<char>) -> bool {
    if http_status == 401 || http_status == 403 {
        e matches KalshiError::AuthFailed(m) && m@ == body
    } else if http_status == 404 {
        e matches KalshiError::MarketNotFound(m) && m@ == last_segment(path)
    } else {
        match structured_error(body) {
            Some((code, message)) => if code == "insufficient_balance"@ {
                e matches KalshiError::InsufficientBalance(m) && m@ == message
            } else {
                e matches KalshiError::OrderRejected(m) && m@ == message
            },
            None => e matches KalshiError::Api(m) && m@ == body,
        }
    }
}

/// Classifies a response whose body has been read: `None` for a 2xx
/// status (the body is then the payload), the error otherwise.
pub fn response_error(http_status: u16, path: &str, body: &str) -> (r: Option<KalshiError>)
    ensures
        200 <= http_status < 300 && http_status != 401 && http_status != 403 && http_status != 404
            ==> r is None,
        !(200 <= http_status < 300) || http_status == 401 || http_status == 403 || http_status
            == 404 ==> (r matches Some(e) && is_response_error(e, http_status, path@, body@)),
{
    if http_status == 401 || http_status == 403 {
        return Some(KalshiError::AuthFailed(owned(body)));
    }
    if http_status == 404 {
        let p = chars_of(path);
        let id = match rfind_char_in(&p, '/', p.len()) {
            Some(k) => {
                proof {
                    crate::text::lemma_rfind_char_bounds_pub(p@, '/', p.len() as int);
                }
                string_of_chars(&p, k + 1, p.len())
            },
            None => owned(path),
        };
        return Some(KalshiError::MarketNotFound(id));
    }
    if 200 <= http_status && http_status < 300 {
        return None;
    }
    let parsed = parse_json(body);
    match parsed {
        Some(j) => match j.get("error") {
            Some(e) => match e {
                Json::Object(_) => {
                    assert(spec_parse_json(body@) == Some(j));
                    assert(j.field("error"@) == Some(*e));
                    let code: &str = match e.get("code") {
                        Some(c) => match c.as_str() {
                            Some(s) => s,
                            None => "",
                        },
                        None => "",
                    };
                    let message = match e.get("message") {
                        Some(m) => match m.as_str() {
                            Some(s) => owned(s),
                            None => owned("unknown error"),
                        },
                        None => owned("unknown error"),
                    };
                    proof {
                        reveal_strlit("");
                    }
                    assert(structured_error(body@) == Some((code@, message@)));
                    if str_eq(code, "insufficient_balance") {
                        Some(KalshiError::InsufficientBalance(message))
                    } else {
                        Some(KalshiError::OrderRejected(message))
                    }
                },
                _ => Some(KalshiError::Api(owned(body))),
            },
            None => Some(KalshiError::Api(owned(body))),
        },
        None => Some(KalshiError::Api(owned(body))),
    }
}

/// The payload of a response, or the error it settles: 429 is a rate
/// limit; 401, 403, 404 and non-2xx statuses are classified by
/// `response_error`; a 2xx body that is not JSON is an API error
/// `parse error: ` followed by `serde_json`'s message.
pub fn reply_payload(http_status: u16, path: &str, body: &str) -> (r: Result<Json, KalshiError>)
    ensures
        http_status == 429 ==> r matches Err(KalshiError::RateLimited),
        http_status != 429 && (!(200 <= http_status < 300) || http_status == 401 || http_status == 403
            || http_status == 404) ==> (r matches Err(e) && is_response_error(e, http_status, path@, body@)),
        http_status != 429 && 200 <= http_status < 300 && http_status != 401 && http_status != 403
            && http_status != 404 ==> match spec_parse_json(body@) {
            Some(j) => r == Ok::<Json, KalshiError>(j),
            None => r matches Err(KalshiError::Api(m)) && m@ == "parse error: "@ + spec_parse_error(body@),
        },
{
    match status_precheck(http_status) {
        Some(e) => return Err(e),
        None => {},
    }
    match response_error(http_status, path, body) {
        Some(e) => return Err(e),
        None => {},
    }
    match serde_parse(body) {
        Ok(j) => Ok(j),
        Err(e) => Err(KalshiError::Api(concat("parse error: ", e.as_str()))),
    }
}

/// What the Kalshi client offers: orders, cancellations and the batched
/// calls need credentials (`authenticated`); the socket needs a request
/// signer outside the demo environment; the reads are always there; user
/// activity, approvals, balance refresh, server time and order book history
/// are not offered.
pub fn describe(authenticated: bool, has_signer: bool, demo: bool) -> (r: ExchangeInfo)
    ensures
        r.id@ == "kalshi"@,
        r.name@ == "Kalshi"@,
        r.has_create_order == authenticated,
        r.has_cancel_order == authenticated,
        r.has_cancel_all_orders == authenticated,
        r.has_create_orders_batch == authenticated,
        r.has_websocket == (has_signer && !demo),
        r.has_fetch_markets && r.has_fetch_positions && r.has_fetch_balance && r.has_fetch_orderbook,
        r.has_fetch_price_history && r.has_fetch_trades && r.has_fetch_fills,
        r.has_fetch_market_lineage && r.has_fetch_orderbooks_batch,
        !r.has_fetch_user_activity && !r.has_approvals && !r.has_refresh_balance,
        !r.has_fetch_server_time && !r.has_fetch_orderbook_history,
{
    ExchangeInfo {
        id: owned("kalshi"),
        name: owned("Kalshi"),
        has_fetch_markets: true,
        has_create_order: authenticated,
        has_cancel_order: authenticated,
        has_fetch_positions: true,
        has_fetch_balance: true,
        has_fetch_orderbook: true,
        has_fetch_price_history: true,
        has_fetch_trades: true,
        has_fetch_user_activity: false,
        has_fetch_fills: true,
        has_fetch_server_time: false,
        has_approvals: false,
        has_refresh_balance: false,
        has_websocket: has_signer && !demo,
        has_fetch_orderbook_history: false,
        has_fetch_market_lineage: true,
        has_fetch_orderbooks_batch: true,
        has_cancel_all_orders: authenticated,
        has_create_orders_batch: authenticated,
    }
}

} // verus!

//! The Limitless REST exchange as the client reads it: the URLs it asks,
//! the errors a status and body stand for, the login headers, and the
//! lists a reply carries.

use vstd::prelude::*;
use vstd::string::*;

use crate::json::Json;
use crate::limitless::error::LimitlessError;
use crate::text::{concat, decimal, owned, push_decimal, trim, trim_seq};

verus! {

/// `{host}{path}`, then `?marketSlug={slug}` when a market is given.
pub open spec fn slug_url_of(host: Seq<char>, path: Seq<char>, slug: Option<Seq<char>>) -> Seq<char> {
    host + path + match slug {
        Some(s) => "?marketSlug="@ + s,
        None => Seq::empty(),
    }
}

/// A listing URL (`/orders`, `/portfolio/positions`), narrowed to one
/// market when a slug is given.
pub fn slug_url(host: &str, path: &str, market_slug: Option<&str>) -> (r: String)
    ensures
        r@ == slug_url_of(
            host@,
            path@,
            match market_slug {
                Some(s) => Some(s@),
                None => None,
            },
        ),
{
    let mut out = concat(host, path);
    match market_slug {
        Some(s) => {
            out.append("?marketSlug=");
            out.append(s);
        },
        None => {},
    }
    proof {
        reveal_strlit("?marketSlug=");
        assert(out@ =~= slug_url_of(
            host@,
            path@,
            match market_slug {
                Some(s) => Some(s@),
                None => None,
            },
        ));
    }
    out
}

/// `{host}/orders/{id}`: one order.
pub fn order_url(host: &str, order_id: &str) -> (r: String)
    ensures
        r@ == host@ + "/orders/"@ + order_id@,
{
    let mut out = concat(host, "/orders/");
    out.append(order_id);
    out
}

/// The error of a request that failed: `{what} failed: {body}`.
pub open spec fn failure_text(what: Seq<char>, body: Seq<char>) -> Seq<char> {
    what + " failed: "@ + body
}

/// The error a response status stands for: none for a 2xx status, else an
/// API error naming the operation `what` and carrying the body.
pub fn status_error(status: u16, what: &str, body: &str) -> (r: Option<LimitlessError>)
    ensures
        (200 <= status < 300) ==> r is None,
        !(200 <= status < 300) ==> (r matches Some(LimitlessError::Api(m)) && m@ == failure_text(
            what@,
            body@,
        )),
{
    if 200 <= status && status < 300 {
        None
    } else {
        let mut m = concat(what, " failed: ");
        m.append(body);
        Some(LimitlessError::Api(m))
    }
}

/// The error of an order placement: a 429 is a rate limit, another non-2xx
/// status an API error carrying the body.
pub fn post_order_error(status: u16, body: &str) -> (r: Option<LimitlessError>)
    ensures
        status == 429 ==> r matches Some(LimitlessError::RateLimited),
        status != 429 && (200 <= status < 300) ==> r is None,
        status != 429 && !(200 <= status < 300) ==> (r matches Some(LimitlessError::Api(m)) && m@
            == failure_text("post order"@, body@)),
{
    if status == 429 {
        Some(LimitlessError::RateLimited)
    } else {
        status_error(status, "post order", body)
    }
}

/// What an authentication check answers: the body for 200, not
/// authenticated for 401, an API error naming the status otherwise.
pub fn verify_auth_result(status: u16, body: &str) -> (r: Result<String, LimitlessError>)
    ensures
        status == 200 ==> (r matches Ok(t) && t@ == body@),
        status == 401 ==> (r matches Err(LimitlessError::Auth(m)) && m@ == "not authenticated"@),
        status != 200 && status != 401 ==> (r matches Err(LimitlessError::Api(m)) && m@
            == "verify-auth failed ("@ + decimal(status as nat) + "): "@ + body@),
{
    if status == 200 {
        Ok(owned(body))
    } else if status == 401 {
        proof {
            reveal_strlit("not authenticated");
        }
        Err(LimitlessError::Auth(owned("not authenticated")))
    } else {
        let mut m = owned("verify-auth failed (");
        push_decimal(&mut m, status as u64);
        m.append("): ");
        m.append(body);
        proof {
            reveal_strlit("verify-auth failed (");
            reveal_strlit("): ");
        }
        Err(LimitlessError::Api(m))
    }
}

/// The message to sign at login: the body of the signing-message reply,
/// trimmed; an empty one cannot be signed.
pub fn signing_message(body: &str) -> (r: Result<String, LimitlessError>)
    ensures
        trim_seq(body@).len() > 0 ==> (r matches Ok(m) && m@ == trim_seq(body@)),
        trim_seq(body@).len() == 0 ==> (r matches Err(LimitlessError::Auth(m)) && m@
            == "empty signing message"@),
{
    let m = trim(body);
    if m.unicode_len() == 0 {
        proof {
            reveal_strlit("empty signing message");
        }
        Err(LimitlessError::Auth(owned("empty signing message")))
    } else {
        Ok(m)
    }
}

/// The error of a refused login: `login failed ({status}): {body}`.
pub fn login_failed(status: u16, body: &str) -> (r: LimitlessError)
    ensures
        r matches LimitlessError::Auth(m) && m@ == "login failed ("@ + decimal(status as nat) + "): "@
            + body@,
{
    let mut m = owned("login failed (");
    push_decimal(&mut m, status as u64);
    m.append("): ");
    m.append(body);
    proof {
        reveal_strlit("login failed (");
        reveal_strlit("): ");
    }
    LimitlessError::Auth(m)
}

/// The lower-case hexadecimal digit of `n` (for `n < 16`).
pub open spec fn hex_digit(n: int) -> char {
    if n < 10 {
        (48 + n) as char
    } else {
        (87 + n) as char
    }
}

/// The lower-case hexadecimal text of `bytes`, two digits per byte, high
/// digit first.
pub open spec fn hex_text(bytes: Seq<u8>) -> Seq<char>
    decreases bytes.len(),
{
    if bytes.len() == 0 {
        Seq::empty()
    } else {
        hex_text(bytes.drop_last()) + seq![
            hex_digit(bytes.last() as int / 16),
            hex_digit(bytes.last() as int % 16),
        ]
    }
}

/// `hex::encode`: each byte as two lower-case hexadecimal digits.
#[verifier::external_body]
fn hex_encode(bytes: &[u8]) -> (r: String)
    ensures
        r@ == hex_text(bytes@),
{
    hex::encode(bytes)
}

/// `0x` followed by the hexadecimal text of `bytes`, the form login
/// headers and order signatures take.
pub fn hex_prefixed(bytes: &[u8]) -> (r: String)
    ensures
        r@ == "0x"@ + hex_text(bytes@),
{
    let h = hex_encode(bytes);
    proof {
        reveal_strlit("0x");
    }
    concat("0x", h.as_str())
}

/// The signing-message header: the message's UTF-8 bytes in `0x` hex.
pub fn message_header(message: &str) -> (r: String)
    ensures
        r@ == "0x"@ + hex_text(vstd::utf8::encode_utf8(message@)),
{
    hex_prefixed(message.as_bytes())
}

/// The items a listing reply carries: its `data` array, else the reply
/// itself when it is an array; none otherwise.
pub fn listed_items(data: &Json) -> (r: Option<&Vec<Json>>)
    ensures
        match data.field("data"@) {
            Some(Json::Array(a)) => r matches Some(v) && v@ == a@,
            _ => match *data {
                Json::Array(a) => r matches Some(v) && v@ == a@,
                _ => r is None,
            },
        },
{
    match data.get("data") {
        Some(Json::Array(a)) => Some(a),
        _ => match data {
            Json::Array(a) => Some(a),
            _ => None,
        },
    }
}

} // verus!

//! The Opinion balance reply: how the status and body of
//! `/openapi/user/balance` settle the available balance or an error.

use vstd::prelude::*;
use vstd::string::*;

use crate::errors::{ExchangeError, OpenPxError};
use crate::json::{opt_view, parse_json, spec_parse_json, Json};
use crate::opinion::api::{aliased, code_of, opt_text};
use crate::text::owned;

verus! {

/// An optional `u32` member: absent, `null`, or a non-negative integer that
/// fits.
pub open spec fn opt_u32_ok(v: Option<Json>) -> bool {
    match v {
        None => true,
        Some(Json::Null) => true,
        Some(Json::UInt(u)) => u <= u32::MAX,
        _ => false,
    }
}

/// A balance entry reads: an object whose text members are texts (or
/// absent, or `null`) and whose `tokenDecimals` is a `u32` when given.
pub open spec fn balance_item_ok(b: Json) -> bool {
    &&& b is Object
    &&& opt_text(b.field("quoteToken"@)) is Some
    &&& opt_u32_ok(b.field("tokenDecimals"@))
    &&& opt_text(b.field("totalBalance"@)) is Some
    &&& opt_text(b.field("availableBalance"@)) is Some
    &&& opt_text(b.field("frozenBalance"@)) is Some
}

/// The `balances` member reads: absent, `null`, or an array of readable
/// entries.
pub open spec fn balances_ok(v: Option<Json>) -> bool {
    match v {
        None => true,
        Some(Json::Null) => true,
        Some(Json::Array(a)) => forall|i: int| 0 <= i < a@.len() ==> balance_item_ok(#[trigger] a@[i]),
        _ => false,
    }
}

/// The `result` member reads: absent, `null`, or an object whose address
/// and chain texts are texts and whose balances read.
pub open spec fn balance_result_ok(v: Option<Json>) -> bool {
    match v {
        None => true,
        Some(Json::Null) => true,
        Some(r) => {
            &&& r is Object
            &&& opt_text(r.field("walletAddress"@)) is Some
            &&& opt_text(r.field("multiSignAddress"@)) is Some
            &&& opt_text(r.field("chainId"@)) is Some
            &&& balances_ok(r.field("balances"@))
        },
    }
}

/// The `availableBalance` text of the first balance of a readable result,
/// if any.
pub open spec fn first_available(v: Option<Json>) -> Option<Seq<char>> {
    match v {
        Some(r) => match r.field("balances"@) {
            Some(Json::Array(a)) => if a@.len() > 0 {
                match opt_text(a@[0].field("availableBalance"@)) {
                    Some(t) => t,
                    None => None,
                }
            } else {
                None
            },
            _ => None,
        },
        None => None,
    }
}

/// The body reads as a balance response: an object with one `i32` code
/// (`code` or `errno`), an optional text message (`msg` or `errmsg`) and a
/// readable result.
pub open spec fn balance_body_ok(j: Json) -> bool {
    &&& j is Object
    &&& aliased(j, "code"@, "errno"@) matches Some(Some(c)) && code_of(c) is Some
    &&& aliased(j, "msg"@, "errmsg"@) matches Some(m) && opt_text(m) is Some
    &&& balance_result_ok(j.field("result"@))
}

/// The message of an unreadable body.
pub open spec fn decode_failure() -> Seq<char> {
    "error decoding response body"@
}

/// What a balance reply settles: the available balance text (none when no
/// balance gives one), or the message of the API error.
pub open spec fn balance_reply_of(status: u16, body: Seq<char>) -> Result<Option<Seq<char>>, Seq<char>> {
    if status == 429 {
        Err("rate limited"@)
    } else if status == 401 || status == 403 {
        Err("authentication required"@)
    } else if !(200 <= status < 300) {
        Err(body)
    } else {
        match spec_parse_json(body) {
            None => Err(decode_failure()),
            Some(j) => if !balance_body_ok(j) {
                Err(decode_failure())
            } else {
                let c = aliased(j, "code"@, "errno"@)->0->0;
                let m = opt_text(aliased(j, "msg"@, "errmsg"@)->0)->0;
                if code_of(c)->0 != 0 {
                    Err(
                        match m {
                            Some(t) => t,
                            None => "fetch balance failed"@,
                        },
                    )
                } else {
                    match j.field("result"@) {
                        Some(Json::Null) => Ok(None),
                        other => Ok(first_available(other)),
                    }
                }
            },
        }
    }
}

/// Whether an optional member is a text, absent, or `null`.
fn text_ok(v: Option<&Json>) -> (r: bool)
    ensures
        r == (opt_text(
            match v {
                Some(x) => Some(*x),
                None => None,
            },
        ) is Some),
{
    match v {
        None => true,
        Some(Json::Null) => true,
        Some(Json::Str(_)) => true,
        Some(_) => false,
    }
}

fn item_read(b: &Json) -> (r: bool)
    ensures
        r == balance_item_ok(*b),
{
    match b {
        Json::Object(_) => {
            text_ok(b.get("quoteToken")) && (match b.get("tokenDecimals") {
                None => true,
                Some(Json::Null) => true,
                Some(Json::UInt(u)) => *u <= 0xffff_ffff,
                Some(_) => false,
            }) && text_ok(b.get("totalBalance")) && text_ok(b.get("availableBalance")) && text_ok(
                b.get("frozenBalance"),
            )
        },
        _ => false,
    }
}

fn items_read(a: &Vec<Json>) -> (r: bool)
    ensures
        r == (forall|k: int| 0 <= k < a@.len() ==> balance_item_ok(#[trigger] a@[k])),
{
    let mut i: usize = 0;
    while i < a.len()
        invariant
            i <= a@.len(),
            forall|k: int| 0 <= k < i ==> balance_item_ok(#[trigger] a@[k]),
        decreases a.len() - i,
    {
        if !item_read(&a[i]) {
            return false;
        }
        i = i + 1;
    }
    true
}

fn balances_read(v: Option<&Json>) -> (r: bool)
    ensures
        r == balances_ok(
            match v {
                Some(x) => Some(*x),
                None => None,
            },
        ),
{
    match v {
        None => true,
        Some(Json::Null) => true,
        Some(Json::Array(a)) => items_read(a),
        Some(_) => false,
    }
}

fn api_error(m: String) -> (r: OpenPxError)
    ensures
        r == OpenPxError::Exchange(ExchangeError::Api(m)),
{
    OpenPxError::Exchange(ExchangeError::Api(m))
}

/// Settles a reply of the balance endpoint: 429 is `rate limited`, 401 and
/// 403 `authentication required`, another non-2xx status the body; a 2xx
/// body that does not read as a balance response is a decoding error, a
/// non-zero code the message given (else `fetch balance failed`); else the
/// `availableBalance` text of the first balance, if any.
pub fn balance_reply(status: u16, body: &str) -> (r: Result<Option<String>, OpenPxError>)
    ensures
        match balance_reply_of(status, body@) {
            Ok(v) => r matches Ok(x) && opt_view(x) == v,
            Err(m) => r matches Err(OpenPxError::Exchange(ExchangeError::Api(e))) && e@ == m,
        },
{
    if status == 429 {
        return Err(api_error(owned("rate limited")));
    }
    if status == 401 || status == 403 {
        return Err(api_error(owned("authentication required")));
    }
    if !(200 <= status && status < 300) {
        return Err(api_error(owned(body)));
    }
    let j = match parse_json(body) {
        Some(j) => j,
        None => return Err(api_error(owned("error decoding response body"))),
    };
    let ok_top = match &j {
        Json::Object(_) => true,
        _ => false,
    };
    if !ok_top {
        return Err(api_error(owned("error decoding response body")));
    }
    let code: i64 = match (j.get("code"), j.get("errno")) {
        (Some(c), None) | (None, Some(c)) => match c.as_i64() {
            Some(n) => if -2147483648 <= n && n <= 2147483647 {
                n
            } else {
                return Err(api_error(owned("error decoding response body")));
            },
            None => return Err(api_error(owned("error decoding response body"))),
        },
        _ => return Err(api_error(owned("error decoding response body"))),
    };
    let msg: Option<&Json> = match (j.get("msg"), j.get("errmsg")) {
        (Some(_), Some(_)) => return Err(api_error(owned("error decoding response body"))),
        (Some(m), None) | (None, Some(m)) => Some(m),
        (None, None) => None,
    };
    if !text_ok(msg) {
        return Err(api_error(owned("error decoding response body")));
    }
    let res = j.get("result");
    let res_ok = match res {
        None => true,
        Some(Json::Null) => true,
        Some(r) => match r {
            Json::Object(_) => text_ok(r.get("walletAddress")) && text_ok(r.get("multiSignAddress")) && text_ok(
                r.get("chainId"),
            ) && balances_read(r.get("balances")),
            _ => false,
        },
    };
    if !res_ok {
        return Err(api_error(owned("error decoding response body")));
    }
    proof {
        reveal_strlit("error decoding response body");
    }
    if code != 0 {
        let m = match msg {
            Some(Json::Str(t)) => t.clone(),
            _ => owned("fetch balance failed"),
        };
        return Err(api_error(m));
    }
    match res {
        Some(r) => match r.get("balances") {
            Some(Json::Array(a)) => if a.len() > 0 {
                match a[0].get("availableBalance") {
                    Some(Json::Str(t)) => Ok(Some(t.clone())),
                    _ => Ok(None),
                }
            } else {
                Ok(None)
            },
            _ => Ok(None),
        },
        None => Ok(None),
    }
}

} // verus!

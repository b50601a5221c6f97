//! The Opinion REST envelope: how a response status and an `ApiResponse`
//! body are read before their payload is.

use vstd::prelude::*;
use vstd::string::*;

use crate::json::{opt_view, str_field, Json};
use crate::text::owned;

verus! {

/// Errors of the Opinion client. `Http` carries the text of a transport
/// error.
#[derive(Debug, Clone)]
pub enum OpinionError {
    Http(String),
    Api(String),
    RateLimited,
    AuthRequired,
    MarketNotFound(String),
    NotSupported(String),
}

/// The error a response status settles: 429 is a rate limit, 401 and 403
/// need authentication, other non-2xx statuses are API errors carrying the
/// body.
pub fn http_error(status: u16, body: &str) -> (r: Option<OpinionError>)
    ensures
        status == 429 ==> r matches Some(OpinionError::RateLimited),
        (status == 401 || status == 403) ==> r matches Some(OpinionError::AuthRequired),
        (status != 429 && status != 401 && status != 403 && !(200 <= status < 300)) ==> (r matches Some(
            OpinionError::Api(m),
        ) && m@ == body@),
        (200 <= status < 300) ==> r is None,
{
    if status == 429 {
        Some(OpinionError::RateLimited)
    } else if status == 401 || status == 403 {
        Some(OpinionError::AuthRequired)
    } else if !(200 <= status && status < 300) {
        Some(OpinionError::Api(owned(body)))
    } else {
        None
    }
}

/// A response envelope: its code, message, and the `data` and `list` of its
/// `result`.
pub struct ApiEnvelope<'a> {
    pub code: i32,
    pub msg: Option<String>,
    pub data: Option<&'a Json>,
    pub list: Option<&'a Vec<Json>>,
}

/// The one member among two aliases; `None` inside when neither is given;
/// `None` outside when both are (a duplicate field).
pub open spec fn aliased(j: Json, a: Seq<char>, b: Seq<char>) -> Option<Option<Json>> {
    match (j.field(a), j.field(b)) {
        (Some(_), Some(_)) => None,
        (Some(x), None) => Some(Some(x)),
        (None, Some(y)) => Some(Some(y)),
        (None, None) => Some(None),
    }
}

/// An `i32` code.
pub open spec fn code_of(v: Json) -> Option<i32> {
    match v.i64_of() {
        Some(n) => if i32::MIN <= n <= i32::MAX {
            Some(n as i32)
        } else {
            None
        },
        None => None,
    }
}

/// An optional text that may be `null`.
pub open spec fn opt_text(v: Option<Json>) -> Option<Option<Seq<char>>> {
    match v {
        None => Some(None),
        Some(Json::Null) => Some(None),
        Some(Json::Str(s)) => Some(Some(s@)),
        _ => None,
    }
}

/// The pieces of a readable envelope: code, message, data, list.
pub open spec fn envelope_of(j: Json) -> Option<(i32, Option<Seq<char>>, Option<Json>, Option<Seq<Json>>)> {
    if !(j is Object) {
        None
    } else {
        match (aliased(j, "code"@, "errno"@), aliased(j, "msg"@, "errmsg"@)) {
            (Some(Some(c)), Some(m)) => match (code_of(c), opt_text(m)) {
                (Some(code), Some(msg)) => match j.field("result"@) {
                    None => Some((code, msg, None, None)),
                    Some(Json::Null) => Some((code, msg, None, None)),
                    Some(res) => if res is Object {
                        let data = match res.field("data"@) {
                            Some(Json::Null) => None,
                            other => other,
                        };
                        match res.field("list"@) {
                            None => Some((code, msg, data, None)),
                            Some(Json::Null) => Some((code, msg, data, None)),
                            Some(Json::Array(a)) => Some((code, msg, data, Some(a@))),
                            _ => None,
                        }
                    } else {
                        None
                    },
                },
                _ => None,
            },
            _ => None,
        }
    }
}

/// One member among two aliases.
fn aliased_at<'a>(j: &'a Json, a: &str, b: &str) -> (r: Option<Option<&'a Json>>)
    ensures
        match r {
            None => aliased(*j, a@, b@) is None,
            Some(None) => aliased(*j, a@, b@) == Some(None::<Json>),
            Some(Some(x)) => aliased(*j, a@, b@) == Some(Some(*x)),
        },
{
    match (j.get(a), j.get(b)) {
        (Some(_), Some(_)) => None,
        (Some(x), None) => Some(Some(x)),
        (None, Some(y)) => Some(Some(y)),
        (None, None) => Some(None),
    }
}

/// Reads a response envelope; `None` when the body is not one.
pub fn read_envelope<'a>(j: &'a Json) -> (r: Option<ApiEnvelope<'a>>)
    ensures
        match envelope_of(*j) {
            None => r is None,
            Some((code, msg, data, list)) => r matches Some(e) && e.code == code && opt_view(e.msg)
                == msg && (match e.data {
                Some(d) => data == Some(*d),
                None => data is None,
            }) && (match e.list {
                Some(l) => list == Some(l@),
                None => list is None,
            }),
        },
{
    match j {
        Json::Object(_) => {},
        _ => return None,
    }
    let c = match aliased_at(j, "code", "errno") {
        Some(Some(c)) => c,
        _ => return None,
    };
    let m = match aliased_at(j, "msg", "errmsg") {
        Some(m) => m,
        None => return None,
    };
    let code: i32 = match c.as_i64() {
        Some(n) => if -2147483648 <= n && n <= 2147483647 {
            n as i32
        } else {
            return None;
        },
        None => return None,
    };
    let msg = match m {
        None => None,
        Some(Json::Null) => None,
        Some(Json::Str(s)) => Some(s.clone()),
        Some(_) => return None,
    };
    match j.get("result") {
        None => Some(ApiEnvelope { code, msg, data: None, list: None }),
        Some(Json::Null) => Some(ApiEnvelope { code, msg, data: None, list: None }),
        Some(res) => match res {
            Json::Object(_) => {
                let data = match res.get("data") {
                    Some(Json::Null) => None,
                    other => other,
                };
                match res.get("list") {
                    None => Some(ApiEnvelope { code, msg, data, list: None }),
                    Some(Json::Null) => Some(ApiEnvelope { code, msg, data, list: None }),
                    Some(Json::Array(a)) => Some(ApiEnvelope { code, msg, data, list: Some(a) }),
                    Some(_) => None,
                }
            },
            _ => None,
        },
    }
}

impl<'a> ApiEnvelope<'a> {
    /// A non-zero code is an API error with the message given, or
    /// `default_msg` when there is none.
    pub fn check(&self, default_msg: &str) -> (r: Result<(), OpinionError>)
        ensures
            self.code == 0 ==> r is Ok,
            self.code != 0 ==> (r matches Err(OpinionError::Api(m)) && m@ == (match self.msg {
                Some(t) => t@,
                None => default_msg@,
            })),
    {
        if self.code != 0 {
            let m = match &self.msg {
                Some(t) => t.clone(),
                None => owned(default_msg),
            };
            return Err(OpinionError::Api(m));
        }
        Ok(())
    }
}

} // verus!

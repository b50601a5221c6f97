//! How Opinion's JSON values are read: ids that are text or integers,
//! amounts that are number text or numbers, times in seconds or RFC 3339.

use vstd::prelude::*;

use crate::json::{number_text, number_text_of, opt_view, Json};
use crate::number::{is_float, is_float_text};
use crate::text::{i64_to_string, signed_decimal};
use crate::time::{rfc3339_millis, secs_to_millis, spec_rfc3339_millis, spec_secs_in_range};

verus! {

/// An id: a string as is, an integer that fits an `i64` in decimal.
pub open spec fn id_text_of(v: Json) -> Option<Seq<char>> {
    match v {
        Json::Str(s) => Some(s@),
        _ => match v.i64_of() {
            Some(n) => Some(signed_decimal(n as int)),
            None => None,
        },
    }
}

/// Reads an id.
pub fn id_text(v: &Json) -> (r: Option<String>)
    ensures
        opt_view(r) == id_text_of(*v),
{
    match v {
        Json::Str(s) => Some(s.clone()),
        _ => match v.as_i64() {
            Some(n) => Some(i64_to_string(n)),
            None => None,
        },
    }
}

/// An amount: a string that reads as a number, or a JSON number.
pub open spec fn amount_text_of(v: Json) -> Option<Seq<char>> {
    match v {
        Json::Str(s) => if is_float_text(s@) {
            Some(s@)
        } else {
            None
        },
        _ => number_text_of(v),
    }
}

/// Reads an amount.
pub fn amount_text(v: &Json) -> (r: Option<String>)
    ensures
        opt_view(r) == amount_text_of(*v),
{
    match v {
        Json::Str(s) => if is_float(s.as_str()) {
            Some(s.clone())
        } else {
            None
        },
        _ => number_text(v),
    }
}

/// A time: whole seconds, or RFC 3339 text.
pub open spec fn time_of(v: Json) -> Option<i64> {
    match v.i64_of() {
        Some(t) => if spec_secs_in_range(t) {
            Some((t * 1000) as i64)
        } else {
            None
        },
        None => match v.str_of() {
            Some(s) => spec_rfc3339_millis(s),
            None => None,
        },
    }
}

/// Reads a time, in milliseconds.
pub fn time_ms(v: &Json) -> (r: Option<i64>)
    ensures
        r == time_of(*v),
{
    match v.as_i64() {
        Some(t) => secs_to_millis(t),
        None => match v.as_str() {
            Some(s) => rfc3339_millis(s),
            None => None,
        },
    }
}

/// A positive count of seconds, as milliseconds.
pub open spec fn positive_secs_of(v: Json) -> Option<i64> {
    match v.i64_of() {
        Some(t) => if t > 0 && spec_secs_in_range(t) {
            Some((t * 1000) as i64)
        } else {
            None
        },
        None => None,
    }
}

/// Reads a positive count of seconds, as milliseconds.
pub fn positive_secs_ms(v: &Json) -> (r: Option<i64>)
    ensures
        r == positive_secs_of(*v),
{
    match v.as_i64() {
        Some(t) => if t > 0 {
            secs_to_millis(t)
        } else {
            None
        },
        None => None,
    }
}

/// The first of two optional values.
pub open spec fn or2(a: Option<Json>, b: Option<Json>) -> Option<Json> {
    crate::json::first_some(a, b)
}

/// The first present member among two keys.
pub open spec fn pick2(j: Json, a: Seq<char>, b: Seq<char>) -> Option<Json> {
    or2(j.field(a), j.field(b))
}

/// The first present member among three keys.
pub open spec fn pick3(j: Json, a: Seq<char>, b: Seq<char>, c: Seq<char>) -> Option<Json> {
    or2(pick2(j, a, b), j.field(c))
}

/// The first present member among four keys.
pub open spec fn pick4(j: Json, a: Seq<char>, b: Seq<char>, c: Seq<char>, d: Seq<char>) -> Option<Json> {
    or2(pick3(j, a, b, c), j.field(d))
}

/// The first present member among three keys.
pub fn get3<'a>(j: &'a Json, a: &str, b: &str, c: &str) -> (r: Option<&'a Json>)
    ensures
        match r {
            Some(v) => pick3(*j, a@, b@, c@) == Some(*v),
            None => pick3(*j, a@, b@, c@) is None,
        },
{
    match j.get_either(a, b) {
        Some(v) => Some(v),
        None => j.get(c),
    }
}

/// The first present member among four keys.
pub fn get4<'a>(j: &'a Json, a: &str, b: &str, c: &str, d: &str) -> (r: Option<&'a Json>)
    ensures
        match r {
            Some(v) => pick4(*j, a@, b@, c@, d@) == Some(*v),
            None => pick4(*j, a@, b@, c@, d@) is None,
        },
{
    match get3(j, a, b, c) {
        Some(v) => Some(v),
        None => j.get(d),
    }
}

/// Applies a reader to an optional value.
pub open spec fn then_id(v: Option<Json>) -> Option<Seq<char>> {
    match v {
        Some(x) => id_text_of(x),
        None => None,
    }
}

/// Applies the amount reader to an optional value.
pub open spec fn then_amount(v: Option<Json>) -> Option<Seq<char>> {
    match v {
        Some(x) => amount_text_of(x),
        None => None,
    }
}

/// Applies the text reader to an optional value.
pub open spec fn then_str(v: Option<Json>) -> Option<Seq<char>> {
    match v {
        Some(x) => x.str_of(),
        None => None,
    }
}

/// Reads an optional id.
pub fn opt_id(v: Option<&Json>) -> (r: Option<String>)
    ensures
        opt_view(r) == then_id(
            match v {
                Some(x) => Some(*x),
                None => None,
            },
        ),
{
    match v {
        Some(x) => id_text(x),
        None => None,
    }
}

/// Reads an optional amount.
pub fn opt_amount(v: Option<&Json>) -> (r: Option<String>)
    ensures
        opt_view(r) == then_amount(
            match v {
                Some(x) => Some(*x),
                None => None,
            },
        ),
{
    match v {
        Some(x) => amount_text(x),
        None => None,
    }
}

/// Reads an optional string.
pub fn opt_str<'a>(v: Option<&'a Json>) -> (r: Option<&'a str>)
    ensures
        match r {
            Some(s) => then_str(
                match v {
                    Some(x) => Some(*x),
                    None => None,
                },
            ) == Some(s@),
            None => then_str(
                match v {
                    Some(x) => Some(*x),
                    None => None,
                },
            ) is None,
        },
{
    match v {
        Some(x) => x.as_str(),
        None => None,
    }
}

} // verus!

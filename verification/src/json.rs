//! A JSON value as plain data, read and written through `serde_json`.

use vstd::prelude::*;

use crate::text::{decimal, i64_to_string, signed_decimal, u64_to_string};

verus! {

#[verifier::external_type_specification]
#[verifier::external_body]
pub struct ExSerdeJsonValue(serde_json::Value);

/// A JSON value. Numbers keep the three forms `serde_json` tells apart:
/// non-negative integers, negative integers, and the rendering of any
/// other number.
#[derive(Debug)]
pub enum Json {
    Null,
    Bool(bool),
    UInt(u64),
    NegInt(i64),
    Float(String),
    Str(String),
    Array(Vec<Json>),
    Object(Vec<(String, Json)>),
}

/// The JSON document `serde_json::from_str` reads from `text`, if any.
/// Object members come one per key (the last one written), in the order
/// `serde_json`'s map keeps them.
pub uninterp spec fn spec_parse_json(text: Seq<char>) -> Option<Json>;

/// The text of the error `serde_json::from_str` reports for `text` when it
/// is not a JSON document (its message with line and column).
pub uninterp spec fn spec_parse_error(text: Seq<char>) -> Seq<char>;

/// The text `serde_json::to_string` writes for `j`.
pub uninterp spec fn spec_json_text(j: Json) -> Seq<char>;

/// `serde_json::from_str::<serde_json::Value>`, handed over as a `Json`,
/// or the text of its error. The JSON grammar is left to `serde_json`.
#[verifier::external_body]
pub(crate) fn serde_parse(text: &str) -> (r: Result<Json, String>)
    ensures
        match r {
            Ok(j) => spec_parse_json(text@) == Some(j),
            Err(e) => spec_parse_json(text@) is None && e@ == spec_parse_error(text@),
        },
{
    match serde_json::from_str::<serde_json::Value>(text) {
        Ok(v) => Ok(from_serde(v)),
        Err(e) => Err(e.to_string()),
    }
}

/// `serde_json::Value::to_string` (compact form, object keys in the order
/// `serde_json`'s map keeps them) of the value `j` stands for.
#[verifier::external_body]
fn serde_text(j: &Json) -> (r: String)
    ensures
        r@ == spec_json_text(*j),
{
    serde_json::Value::to_string(&to_serde(j))
}

/// A lower-case hexadecimal digit.
pub open spec fn hex_digit_char(n: int) -> char {
    if n < 10 {
        (('0' as int) + n) as char
    } else {
        (('a' as int) + n - 10) as char
    }
}

/// How a JSON string writes `c`: `"` and `\` behind a backslash; the
/// controls with a short escape as `\b`, `\t`, `\n`, `\f`, `\r`; the
/// other controls below U+0020 as `\u00` and two lower-case hexadecimal
/// digits; every other character as itself.
pub open spec fn escaped_char(c: char) -> Seq<char> {
    if c == '"' {
        seq!['\\', '"']
    } else if c == '\\' {
        seq!['\\', '\\']
    } else if c == '\u{8}' {
        seq!['\\', 'b']
    } else if c == '\t' {
        seq!['\\', 't']
    } else if c == '\n' {
        seq!['\\', 'n']
    } else if c == '\u{c}' {
        seq!['\\', 'f']
    } else if c == '\r' {
        seq!['\\', 'r']
    } else if (c as u32) < 0x20 {
        seq!['\\', 'u', '0', '0', hex_digit_char((c as int) / 16), hex_digit_char((c as int) % 16)]
    } else {
        seq![c]
    }
}

/// The characters of `s`, each written as a JSON string writes it.
pub open spec fn escaped_text(s: Seq<char>) -> Seq<char>
    decreases s.len(),
{
    if s.len() == 0 {
        Seq::empty()
    } else {
        escaped_text(s.drop_last()) + escaped_char(s.last())
    }
}

/// The JSON string literal `serde_json::to_string` writes for the text `s`:
/// its escaped characters between double quotes.
pub open spec fn spec_quoted(s: Seq<char>) -> Seq<char> {
    seq!['"'] + escaped_text(s) + seq!['"']
}

/// `serde_json::to_string` on a `str`, which cannot fail there.
#[verifier::external_body]
pub(crate) fn quote_json(s: &str) -> (r: String)
    ensures
        r@ == spec_quoted(s@),
{
    serde_json::to_string(s).unwrap_or_default()
}

/// Moves a `serde_json::Value` into a `Json`, one node for one node; the
/// conversion half of `serde_parse`, called only from its body.
#[verifier::external_body]
fn from_serde(v: serde_json::Value) -> Json {
    match v {
        serde_json::Value::Null => Json::Null,
        serde_json::Value::Bool(b) => Json::Bool(b),
        serde_json::Value::Number(n) => match (n.as_u64(), n.as_i64()) {
            (Some(u), _) => Json::UInt(u),
            (None, Some(i)) => Json::NegInt(i),
            (None, None) => Json::Float(n.to_string()),
        },
        serde_json::Value::String(s) => Json::Str(s),
        serde_json::Value::Array(a) => Json::Array(a.into_iter().map(from_serde).collect()),
        serde_json::Value::Object(m) => Json::Object(m.into_iter().map(|(k, x)| (k, from_serde(x))).collect()),
    }
}

/// Builds the `serde_json::Value` for `j`, one node for one node; the
/// conversion half of `serde_text`, called only from its body.
#[verifier::external_body]
fn to_serde(j: &Json) -> serde_json::Value {
    match j {
        Json::Null => serde_json::Value::Null,
        Json::Bool(b) => serde_json::Value::Bool(*b),
        Json::UInt(u) => serde_json::Value::from(*u),
        Json::NegInt(i) => serde_json::Value::from(*i),
        Json::Float(s) => serde_json::from_str(s).unwrap_or(serde_json::Value::Null),
        Json::Str(s) => serde_json::Value::String(s.clone()),
        Json::Array(a) => serde_json::Value::Array(a.iter().map(to_serde).collect()),
        Json::Object(m) => serde_json::Value::Object(m.iter().map(|(k, x)| (k.clone(), to_serde(x))).collect()),
    }
}

/// Reads a JSON document; `None` when `text` is not one.
pub fn parse_json(text: &str) -> (r: Option<Json>)
    ensures
        r == spec_parse_json(text@),
{
    match serde_parse(text) {
        Ok(j) => Some(j),
        Err(_) => None,
    }
}

/// The compact JSON text of `j`.
pub fn json_text(j: &Json) -> (r: String)
    ensures
        r@ == spec_json_text(*j),
{
    serde_text(j)
}


/// The index of the first member of `entries`, from `i` on, whose key is
/// `key`, or `entries.len()` when there is none.
pub open spec fn member_index(entries: Seq<(String, Json)>, key: Seq<char>, i: int) -> int
    decreases entries.len() - i,
{
    if i < 0 || i >= entries.len() {
        entries.len() as int
    } else if entries[i].0@ == key {
        i
    } else {
        member_index(entries, key, i + 1)
    }
}

proof fn lemma_member_index_bounds(entries: Seq<(String, Json)>, key: Seq<char>, i: int)
    requires
        0 <= i <= entries.len(),
    ensures
        i <= member_index(entries, key, i) <= entries.len(),
        member_index(entries, key, i) < entries.len() ==> entries[member_index(
            entries,
            key,
            i,
        )].0@ == key,
    decreases entries.len() - i,
{
    if i < entries.len() && entries[i].0@ != key {
        lemma_member_index_bounds(entries, key, i + 1);
    }
}

impl Json {
    /// The member named `key` when this is an object (`Value::get`).
    pub open spec fn field(self, key: Seq<char>) -> Option<Json> {
        match self {
            Json::Object(entries) => {
                let k = member_index(entries@, key, 0);
                if k < entries@.len() {
                    Some(entries@[k].1)
                } else {
                    None
                }
            },
            _ => None,
        }
    }

    /// The text when this is a string (`Value::as_str`).
    pub open spec fn str_of(self) -> Option<Seq<char>> {
        match self {
            Json::Str(s) => Some(s@),
            _ => None,
        }
    }

    /// `Value::as_u64`.
    pub open spec fn u64_of(self) -> Option<u64> {
        match self {
            Json::UInt(u) => Some(u),
            _ => None,
        }
    }

    /// `Value::as_i64`: non-negative integers that fit, and negative ones.
    pub open spec fn i64_of(self) -> Option<i64> {
        match self {
            Json::UInt(u) => if u <= i64::MAX {
                Some(u as i64)
            } else {
                None
            },
            Json::NegInt(i) => Some(i),
            _ => None,
        }
    }

    /// `Value::as_bool`.
    pub open spec fn bool_of(self) -> Option<bool> {
        match self {
            Json::Bool(b) => Some(b),
            _ => None,
        }
    }

    /// The member named `key` when this is an object (`Value::get`).
    pub fn get(&self, key: &str) -> (r: Option<&Json>)
        ensures
            match r {
                Some(j) => self.field(key@) == Some(*j),
                None => self.field(key@) is None,
            },
    {
        match self {
            Json::Object(entries) => {
                let mut i: usize = 0;
                while i < entries.len()
                    invariant
                        i <= entries.len(),
                        *self == Json::Object(*entries),
                        member_index(entries@, key@, 0) == member_index(entries@, key@, i as int),
                    decreases entries.len() - i,
                {
                    if crate::text::str_eq(entries[i].0.as_str(), key) {
                        assert(member_index(entries@, key@, i as int) == i);
                        return Some(&entries[i].1);
                    }
                    i = i + 1;
                }
                None
            },
            _ => None,
        }
    }

    /// The text when this is a string (`Value::as_str`).
    pub fn as_str(&self) -> (r: Option<&str>)
        ensures
            match r {
                Some(s) => self.str_of() == Some(s@),
                None => self.str_of() is None,
            },
    {
        match self {
            Json::Str(s) => Some(s.as_str()),
            _ => None,
        }
    }

    /// `Value::as_u64`.
    pub fn as_u64(&self) -> (r: Option<u64>)
        ensures
            r == self.u64_of(),
    {
        match self {
            Json::UInt(u) => Some(*u),
            _ => None,
        }
    }

    /// `Value::as_i64`.
    pub fn as_i64(&self) -> (r: Option<i64>)
        ensures
            r == self.i64_of(),
    {
        match self {
            Json::UInt(u) => if *u <= 0x7fff_ffff_ffff_ffff {
                Some(*u as i64)
            } else {
                None
            },
            Json::NegInt(i) => Some(*i),
            _ => None,
        }
    }

    /// `Value::as_bool`.
    pub fn as_bool(&self) -> (r: Option<bool>)
        ensures
            r == self.bool_of(),
    {
        match self {
            Json::Bool(b) => Some(*b),
            _ => None,
        }
    }

    /// The elements when this is an array (`Value::as_array`).
    pub fn as_array(&self) -> (r: Option<&Vec<Json>>)
        ensures
            match r {
                Some(a) => *self == Json::Array(*a),
                None => !(*self is Array),
            },
    {
        match self {
            Json::Array(a) => Some(a),
            _ => None,
        }
    }
}


/// The first of two optional values that is present (`Option::or`).
pub open spec fn first_some<T>(a: Option<T>, b: Option<T>) -> Option<T> {
    match a {
        Some(x) => Some(x),
        None => b,
    }
}

/// The text of member `key` of `j`, when that member is a string.
pub open spec fn str_field(j: Json, key: Seq<char>) -> Option<Seq<char>> {
    match j.field(key) {
        Some(v) => v.str_of(),
        None => None,
    }
}

/// The text of `o`, when it holds one.
pub open spec fn opt_view(o: Option<String>) -> Option<Seq<char>> {
    match o {
        Some(s) => Some(s@),
        None => None,
    }
}

/// The texts of `v`, in order.
pub open spec fn views(v: Seq<String>) -> Seq<Seq<char>> {
    v.map_values(|s: String| s@)
}

impl Json {
    /// The member named `a`, or when there is none the member named `b`
    /// (`obj.get(a).or_else(|| obj.get(b))`).
    pub fn get_either(&self, a: &str, b: &str) -> (r: Option<&Json>)
        ensures
            match r {
                Some(j) => first_some(self.field(a@), self.field(b@)) == Some(*j),
                None => first_some(self.field(a@), self.field(b@)) is None,
            },
    {
        match self.get(a) {
            Some(j) => Some(j),
            None => self.get(b),
        }
    }

    /// The text of member `key`, when that member is a string.
    pub fn get_str(&self, key: &str) -> (r: Option<&str>)
        ensures
            match r {
                Some(s) => str_field(*self, key@) == Some(s@),
                None => str_field(*self, key@) is None,
            },
    {
        match self.get(key) {
            Some(v) => v.as_str(),
            None => None,
        }
    }

    /// An owned copy of the text of member `key`, when it is a string.
    pub fn get_string(&self, key: &str) -> (r: Option<String>)
        ensures
            opt_view(r) == str_field(*self, key@),
    {
        match self.get_str(key) {
            Some(s) => Some(s.to_owned()),
            None => None,
        }
    }
}

/// The elements of member `key` of `j`, when it is an array.
pub open spec fn array_field(j: Json, key: Seq<char>) -> Option<Seq<Json>> {
    match j.field(key) {
        Some(Json::Array(a)) => Some(a@),
        _ => None,
    }
}

/// The string members `key` of the elements of `a`, skipping elements that
/// have none (`filter_map(|m| m.get(key).and_then(as_str))`).
pub open spec fn keyed_strs(a: Seq<Json>, key: Seq<char>) -> Seq<Seq<char>>
    decreases a.len(),
{
    if a.len() == 0 {
        Seq::empty()
    } else {
        let rest = keyed_strs(a.drop_last(), key);
        match str_field(a.last(), key) {
            Some(t) => rest.push(t),
            None => rest,
        }
    }
}

/// The elements of `a` that are strings (`filter_map(as_str)`).
pub open spec fn item_strs(a: Seq<Json>) -> Seq<Seq<char>>
    decreases a.len(),
{
    if a.len() == 0 {
        Seq::empty()
    } else {
        let rest = item_strs(a.drop_last());
        match a.last().str_of() {
            Some(t) => rest.push(t),
            None => rest,
        }
    }
}

/// Collects the string members `key` of the elements of `a`.
pub fn collect_keyed_strs(a: &Vec<Json>, key: &str) -> (r: Vec<String>)
    ensures
        views(r@) == keyed_strs(a@, key@),
{
    let mut r: Vec<String> = Vec::new();
    let mut i: usize = 0;
    while i < a.len()
        invariant
            i <= a.len(),
            views(r@) == keyed_strs(a@.take(i as int), key@),
        decreases a.len() - i,
    {
        assert(a@.take(i + 1).drop_last() =~= a@.take(i as int));
        assert(a@.take(i + 1).last() == a@[i as int]);
        match a[i].get_str(key) {
            Some(t) => {
                r.push(t.to_owned());
                assert(views(r@) =~= keyed_strs(a@.take(i as int), key@).push(t@));
            },
            None => {},
        }
        i = i + 1;
    }
    assert(a@.take(a.len() as int) =~= a@);
    r
}

/// Collects the elements of `a` that are strings.
pub fn collect_strs(a: &Vec<Json>) -> (r: Vec<String>)
    ensures
        views(r@) == item_strs(a@),
{
    let mut r: Vec<String> = Vec::new();
    let mut i: usize = 0;
    while i < a.len()
        invariant
            i <= a.len(),
            views(r@) == item_strs(a@.take(i as int)),
        decreases a.len() - i,
    {
        assert(a@.take(i + 1).drop_last() =~= a@.take(i as int));
        assert(a@.take(i + 1).last() == a@[i as int]);
        match a[i].as_str() {
            Some(t) => {
                r.push(t.to_owned());
                assert(views(r@) =~= item_strs(a@.take(i as int)).push(t@));
            },
            None => {},
        }
        i = i + 1;
    }
    assert(a@.take(a.len() as int) =~= a@);
    r
}

/// The text of a JSON number, as it reads back into an `f64`
/// (`Value::as_f64` is `Some` for every number); `None` for other values.
pub open spec fn number_text_of(j: Json) -> Option<Seq<char>> {
    match j {
        Json::UInt(u) => Some(decimal(u as nat)),
        Json::NegInt(i) => Some(signed_decimal(i as int)),
        Json::Float(t) => Some(t@),
        _ => None,
    }
}

/// The number text of member `key` of `j`.
pub open spec fn number_field(j: Json, key: Seq<char>) -> Option<Seq<char>> {
    match j.field(key) {
        Some(v) => number_text_of(v),
        None => None,
    }
}

/// The text of a JSON number.
pub fn number_text(j: &Json) -> (r: Option<String>)
    ensures
        opt_view(r) == number_text_of(*j),
{
    match j {
        Json::UInt(u) => Some(u64_to_string(*u)),
        Json::NegInt(i) => Some(i64_to_string(*i)),
        Json::Float(t) => Some(t.clone()),
        _ => None,
    }
}

/// The number text of member `key` of `j`.
pub fn number_text_at(j: &Json, key: &str) -> (r: Option<String>)
    ensures
        opt_view(r) == number_field(*j, key@),
{
    match j.get(key) {
        Some(v) => number_text(v),
        None => None,
    }
}

/// A scalar JSON value as plain data, for stating what an object built
/// here holds.
pub enum Scalar {
    Text(Seq<char>),
    Flag(bool),
    Int(int),
    Other,
}

/// The scalar a JSON value is.
pub open spec fn scalar_of(j: Json) -> Scalar {
    match j {
        Json::Str(s) => Scalar::Text(s@),
        Json::Bool(b) => Scalar::Flag(b),
        Json::UInt(u) => Scalar::Int(u as int),
        Json::NegInt(i) => Scalar::Int(i as int),
        _ => Scalar::Other,
    }
}

/// The members of an object as `(key, scalar)` pairs, in order.
pub open spec fn members_view(m: Seq<(String, Json)>) -> Seq<(Seq<char>, Scalar)> {
    m.map_values(|p: (String, Json)| (p.0@, scalar_of(p.1)))
}

/// A JSON integer of value `v`.
pub fn int_json(v: i64) -> (r: Json)
    ensures
        scalar_of(r) == Scalar::Int(v as int),
{
    if v >= 0 {
        Json::UInt(v as u64)
    } else {
        Json::NegInt(v)
    }
}

/// A member `(key, string)`.
pub fn text_member(key: &str, value: &str) -> (r: (String, Json))
    ensures
        r.0@ == key@,
        scalar_of(r.1) == Scalar::Text(value@),
{
    (key.to_owned(), Json::Str(value.to_owned()))
}

} // verus!
